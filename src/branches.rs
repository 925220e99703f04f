//! Branch listings: summaries of local branches from the engine, and parsing of
//! the version-control tool's branch and log output.
use vstd::prelude::*;
use vstd::string::*;
use crate::text::{
    chars_eq, chars_of, contains_chars, contains_seq, matches_at, parse_i64, parsed_i64,
    split_chars, split_fields, starts_with, string_of, trim_chars, trim_ws, chars_view,
};

verus! {

/// A local branch as the engine lists it.
#[derive(Clone, Debug)]
pub struct Branch {
    pub name: String,
    pub is_current: bool,
    pub is_remote: bool,
    pub last_commit: String,
    pub last_commit_message: String,
}

/// A branch as the version-control tool lists it, with its tip commit.
#[derive(Clone, Debug)]
pub struct GitBranch {
    pub name: String,
    pub is_current: bool,
    pub is_remote: bool,
    pub last_commit_hash: Option<String>,
    pub last_commit_message: Option<String>,
    /// Seconds since the Unix epoch; `None` when the tip's time is unknown and
    /// the time of listing stands for it.
    pub last_commit_date: Option<i64>,
    pub ahead_count: Option<i32>,
    pub behind_count: Option<i32>,
}

/// The first eight characters of a commit id.
pub open spec fn short_hash(h: Seq<char>) -> Seq<char> {
    if h.len() >= 8 {
        h.take(8)
    } else {
        h
    }
}

/// Summarises the local branch `name`. `current` is the short name of HEAD, if
/// it has one; `tip` the id and message of the branch's tip commit, if it has one.
pub fn branch_summary(name: &str, current: Option<&str>, tip: Option<(&str, Option<&str>)>) -> (r:
    Branch)
    ensures
        r.name@ == name@,
        r.is_current == (name@ == match current {
            Some(c) => c@,
            None => ""@,
        }),
        !r.is_remote,
        r.last_commit@ == match tip {
            Some((h, _)) => short_hash(h@),
            None => "unknown"@,
        },
        r.last_commit_message@ == match tip {
            Some((_, Some(m))) => m@,
            Some((_, None)) => ""@,
            None => "No commits"@,
        },
{
    let name_chars = chars_of(name);
    let current_chars = match current {
        Some(c) => chars_of(c),
        None => chars_of(""),
    };
    let is_current = chars_eq(name_chars.as_slice(), current_chars.as_slice());
    let (last_commit, last_commit_message) = match tip {
        Some((h, m)) => {
            let mut hc = chars_of(h);
            if hc.len() >= 8 {
                hc.truncate(8);
            }
            let msg = match m {
                Some(m) => String::from_str(m),
                None => String::from_str(""),
            };
            (string_of(hc.as_slice()), msg)
        },
        None => (String::from_str("unknown"), String::from_str("No commits")),
    };
    Branch { name: String::from_str(name), is_current, is_remote: false, last_commit, last_commit_message }
}

/// One line of the tool's branch listing: name, whether it is checked out,
/// whether it is a remote-tracking branch.
#[derive(Clone, Debug)]
pub struct BranchLine {
    pub name: String,
    pub is_current: bool,
    pub is_remote: bool,
}

pub open spec fn branch_line_view(b: BranchLine) -> (Seq<char>, bool, bool) {
    (b.name@, b.is_current, b.is_remote)
}

/// What a line `name|head-marker|tracking` of the listing says: nothing for a
/// blank line or one with no `|`; else the trimmed name, whether the marker is
/// `*`, and whether the name starts with `origin/` or holds `remotes/`.
pub open spec fn branch_line_of(line: Seq<char>) -> Option<(Seq<char>, bool, bool)> {
    let parts = split_fields(line, '|');
    if trim_ws(line).len() == 0 || parts.len() < 2 {
        None
    } else {
        let name = trim_ws(parts[0]);
        Some(
            (
                name,
                trim_ws(parts[1]) == seq!['*'],
                starts_with(name, "origin/"@) || contains_seq(name, "remotes/"@),
            ),
        )
    }
}

/// The entries of the listing's lines, blank and malformed lines skipped.
pub open spec fn branch_lines_of(lines: Seq<Seq<char>>) -> Seq<(Seq<char>, bool, bool)>
    decreases lines.len(),
{
    if lines.len() == 0 {
        seq![]
    } else {
        let rest = branch_lines_of(lines.drop_last());
        match branch_line_of(lines.last()) {
            Some(e) => rest.push(e),
            None => rest,
        }
    }
}

/// Parses one line of the branch listing.
pub fn parse_branch_line(line: &[char]) -> (r: Option<BranchLine>)
    ensures
        match r {
            Some(b) => branch_line_of(line@) == Some(branch_line_view(b)),
            None => branch_line_of(line@) is None,
        },
{
    let trimmed = trim_chars(line);
    let parts = split_chars(line, '|');
    if trimmed.len() == 0 || parts.len() < 2 {
        return None;
    }
    assert(parts@[0]@ == chars_view(parts@)[0]);
    assert(parts@[1]@ == chars_view(parts@)[1]);
    let name = trim_chars(parts[0].as_slice());
    let marker = trim_chars(parts[1].as_slice());
    let star: Vec<char> = vec!['*'];
    assert(star@ =~= seq!['*']);
    let is_current = chars_eq(marker.as_slice(), star.as_slice());
    proof {
        reveal_strlit("origin/");
        reveal_strlit("remotes/");
    }
    let origin = chars_of("origin/");
    let remotes = chars_of("remotes/");
    let is_remote = matches_at(name.as_slice(), origin.as_slice(), 0) || contains_chars(
        name.as_slice(),
        remotes.as_slice(),
    );
    proof {
        if origin@.len() <= name@.len() {
            assert(name@.subrange(0, origin@.len() as int) =~= name@.take(origin@.len() as int));
        }
    }
    Some(BranchLine { name: string_of(name.as_slice()), is_current, is_remote })
}

/// Parses the tool's branch listing, one branch per line.
pub fn parse_branch_list(output: &str) -> (r: Vec<BranchLine>)
    ensures
        r@.map_values(|b: BranchLine| branch_line_view(b)) == branch_lines_of(
            split_fields(output@, '\n'),
        ),
{
    let cs = chars_of(output);
    let lines = split_chars(cs.as_slice(), '\n');
    let ghost lv = chars_view(lines@);
    let mut out: Vec<BranchLine> = Vec::new();
    let mut i: usize = 0;
    while i < lines.len()
        invariant
            lv == chars_view(lines@),
            i <= lines@.len(),
            out@.map_values(|b: BranchLine| branch_line_view(b)) == branch_lines_of(
                lv.take(i as int),
            ),
        decreases lines@.len() - i,
    {
        assert(lv.take(i + 1).drop_last() =~= lv.take(i as int));
        assert(lv[i as int] == lines@[i as int]@);
        match parse_branch_line(lines[i].as_slice()) {
            Some(b) => {
                out.push(b);
            },
            None => {},
        }
        assert(out@.map_values(|b: BranchLine| branch_line_view(b)) =~= branch_lines_of(
            lv.take(i + 1),
        ));
        i = i + 1;
    }
    assert(lv.take(lv.len() as int) =~= lv);
    out
}

/// The tip commit of a branch as the tool's log reports it.
#[derive(Clone, Debug)]
pub struct CommitInfo {
    pub hash: String,
    pub message: String,
    /// Seconds since the Unix epoch; `None` when unknown.
    pub timestamp: Option<i64>,
}

/// What the log output `hash|subject|unix-time` says, after trimming: on a
/// failed run or fewer than three fields, `unknown` and `No commits` with no
/// time; else the first two fields and the third read as an integer, 0 when it
/// is not one.
pub open spec fn commit_info_of(success: bool, output: Seq<char>) -> (
    Seq<char>,
    Seq<char>,
    Option<i64>,
) {
    let parts = split_fields(trim_ws(output), '|');
    if success && parts.len() >= 3 {
        (
            parts[0],
            parts[1],
            Some(
                match parsed_i64(parts[2]) {
                    Some(t) => t,
                    None => 0,
                },
            ),
        )
    } else {
        ("unknown"@, "No commits"@, None)
    }
}

/// Parses the log output for a branch's tip commit.
pub fn parse_commit_info(success: bool, output: &str) -> (r: CommitInfo)
    ensures
        (r.hash@, r.message@, r.timestamp) == commit_info_of(success, output@),
{
    let cs = chars_of(output);
    let trimmed = trim_chars(cs.as_slice());
    let parts = split_chars(trimmed.as_slice(), '|');
    if !success || parts.len() < 3 {
        return CommitInfo {
            hash: String::from_str("unknown"),
            message: String::from_str("No commits"),
            timestamp: None,
        };
    }
    assert(parts@[0]@ == chars_view(parts@)[0]);
    assert(parts@[1]@ == chars_view(parts@)[1]);
    assert(parts@[2]@ == chars_view(parts@)[2]);
    let time_text = string_of(parts[2].as_slice());
    let t = match parse_i64(time_text.as_str()) {
        Some(t) => t,
        None => 0,
    };
    CommitInfo {
        hash: string_of(parts[0].as_slice()),
        message: string_of(parts[1].as_slice()),
        timestamp: Some(t),
    }
}

/// A listed branch with its tip commit; ahead and behind are not computed.
pub fn git_branch(line: BranchLine, info: CommitInfo) -> (r: GitBranch)
    ensures
        r.name == line.name,
        r.is_current == line.is_current,
        r.is_remote == line.is_remote,
        r.last_commit_hash == Some(info.hash),
        r.last_commit_message == Some(info.message),
        r.last_commit_date == info.timestamp,
        r.ahead_count is None,
        r.behind_count is None,
{
    GitBranch {
        name: line.name,
        is_current: line.is_current,
        is_remote: line.is_remote,
        last_commit_hash: Some(info.hash),
        last_commit_message: Some(info.message),
        last_commit_date: info.timestamp,
        ahead_count: None,
        behind_count: None,
    }
}

} // verus!
