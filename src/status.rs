//! Working-tree status: classification of status entries into staged,
//! modified and untracked paths, and the result records of repository
//! operations.
use vstd::prelude::*;
use vstd::string::*;
use crate::text::{concat_str, strings_view};

verus! {

/// The status bits of one path, as the version-control engine reports them.
#[derive(Clone, Copy, Debug, PartialEq, Eq, Structural)]
pub struct EntryFlags {
    pub index_new: bool,
    pub index_modified: bool,
    pub index_deleted: bool,
    pub index_renamed: bool,
    pub index_typechange: bool,
    pub wt_new: bool,
    pub wt_modified: bool,
    pub wt_deleted: bool,
    pub wt_renamed: bool,
    pub wt_typechange: bool,
}

/// One path of the working tree or index with its status bits.
#[derive(Clone, Debug)]
pub struct StatusEntry {
    pub path: String,
    pub flags: EntryFlags,
}

/// The state of a repository's working tree.
#[derive(Clone, Debug)]
pub struct GitStatus {
    pub current_branch: String,
    pub is_clean: bool,
    pub staged_files: Vec<String>,
    pub modified_files: Vec<String>,
    pub untracked_files: Vec<String>,
    pub ahead: usize,
    pub behind: usize,
}

/// The outcome of an operation that reports failure as data.
#[derive(Clone, Debug)]
pub struct CloneResult {
    pub success: bool,
    pub path: String,
    pub message: String,
}

/// The index differs from HEAD.
pub open spec fn is_staged(f: EntryFlags) -> bool {
    f.index_new || f.index_modified || f.index_deleted || f.index_renamed || f.index_typechange
}

/// The working tree differs from the index for a tracked path.
pub open spec fn is_modified(f: EntryFlags) -> bool {
    f.wt_modified || f.wt_deleted || f.wt_renamed || f.wt_typechange
}

/// The path is new in the working tree.
pub open spec fn is_untracked(f: EntryFlags) -> bool {
    f.wt_new
}

/// The paths of the entries whose flags satisfy `pred`, in entry order.
pub open spec fn paths_where(entries: Seq<StatusEntry>, pred: spec_fn(EntryFlags) -> bool) -> Seq<
    Seq<char>,
>
    decreases entries.len(),
{
    if entries.len() == 0 {
        seq![]
    } else {
        let rest = paths_where(entries.drop_last(), pred);
        if pred(entries.last().flags) {
            rest.push(entries.last().path@)
        } else {
            rest
        }
    }
}

pub open spec fn staged_paths(entries: Seq<StatusEntry>) -> Seq<Seq<char>> {
    paths_where(entries, |f: EntryFlags| is_staged(f))
}

pub open spec fn modified_paths(entries: Seq<StatusEntry>) -> Seq<Seq<char>> {
    paths_where(entries, |f: EntryFlags| is_modified(f))
}

pub open spec fn untracked_paths(entries: Seq<StatusEntry>) -> Seq<Seq<char>> {
    paths_where(entries, |f: EntryFlags| is_untracked(f))
}

impl EntryFlags {
    pub fn staged(&self) -> (r: bool)
        ensures
            r == is_staged(*self),
    {
        self.index_new || self.index_modified || self.index_deleted || self.index_renamed
            || self.index_typechange
    }

    pub fn modified(&self) -> (r: bool)
        ensures
            r == is_modified(*self),
    {
        self.wt_modified || self.wt_deleted || self.wt_renamed || self.wt_typechange
    }

    pub fn untracked(&self) -> (r: bool)
        ensures
            r == is_untracked(*self),
    {
        self.wt_new
    }
}

/// Sorts the entries into the staged, modified and untracked lists, in entry
/// order. A path lands in every list whose condition its flags meet. The tree is
/// clean when all three lists are empty; ahead and behind are not computed and
/// stay 0.
pub fn classify_status(current_branch: String, entries: &Vec<StatusEntry>) -> (r: GitStatus)
    ensures
        r.current_branch == current_branch,
        strings_view(r.staged_files@) == staged_paths(entries@),
        strings_view(r.modified_files@) == modified_paths(entries@),
        strings_view(r.untracked_files@) == untracked_paths(entries@),
        r.is_clean == (staged_paths(entries@).len() == 0 && modified_paths(entries@).len() == 0
            && untracked_paths(entries@).len() == 0),
        r.ahead == 0,
        r.behind == 0,
{
    let mut staged: Vec<String> = Vec::new();
    let mut modified: Vec<String> = Vec::new();
    let mut untracked: Vec<String> = Vec::new();
    let mut i: usize = 0;
    while i < entries.len()
        invariant
            i <= entries@.len(),
            strings_view(staged@) == staged_paths(entries@.take(i as int)),
            strings_view(modified@) == modified_paths(entries@.take(i as int)),
            strings_view(untracked@) == untracked_paths(entries@.take(i as int)),
        decreases entries@.len() - i,
    {
        let e = &entries[i];
        let ghost prefix = entries@.take(i + 1);
        assert(prefix.drop_last() =~= entries@.take(i as int));
        assert(prefix.last() == entries@[i as int]);
        if e.flags.staged() {
            staged.push(e.path.clone());
        }
        if e.flags.modified() {
            modified.push(e.path.clone());
        }
        if e.flags.untracked() {
            untracked.push(e.path.clone());
        }
        assert(strings_view(staged@) =~= staged_paths(prefix));
        assert(strings_view(modified@) =~= modified_paths(prefix));
        assert(strings_view(untracked@) =~= untracked_paths(prefix));
        i = i + 1;
    }
    assert(entries@.take(entries@.len() as int) =~= entries@);
    let is_clean = staged.len() == 0 && modified.len() == 0 && untracked.len() == 0;
    GitStatus {
        current_branch,
        is_clean,
        staged_files: staged,
        modified_files: modified,
        untracked_files: untracked,
        ahead: 0,
        behind: 0,
    }
}

/// The name reported for HEAD: the branch's short name when HEAD is on a branch
/// that has one, else `HEAD`.
pub fn current_branch_label(head_is_branch: bool, shorthand: Option<&str>) -> (r: String)
    ensures
        r@ == match (head_is_branch, shorthand) {
            (true, Some(s)) => s@,
            _ => "HEAD"@,
        },
{
    match (head_is_branch, shorthand) {
        (true, Some(s)) => String::from_str(s),
        _ => String::from_str("HEAD"),
    }
}

/// The result of an operation on `path`: on success the fixed message, on
/// failure the failure prefix followed by the engine's error.
pub fn outcome(path: &str, error: Option<&str>, success_message: &str, failure_prefix: &str) -> (r:
    CloneResult)
    ensures
        r.success == error is None,
        r.path@ == path@,
        r.message@ == match error {
            None => success_message@,
            Some(e) => failure_prefix@ + e@,
        },
{
    match error {
        None => CloneResult {
            success: true,
            path: String::from_str(path),
            message: String::from_str(success_message),
        },
        Some(e) => CloneResult {
            success: false,
            path: String::from_str(path),
            message: concat_str(failure_prefix, e),
        },
    }
}

/// The result of cloning into `path`; a failed clone, authentication included,
/// is reported as data.
pub fn clone_outcome(path: &str, error: Option<&str>) -> (r: CloneResult)
    ensures
        r.success == error is None,
        r.path@ == path@,
        r.message@ == match error {
            None => "Repository cloned successfully"@,
            Some(e) => "Failed to clone repository: "@ + e@,
        },
{
    outcome(path, error, "Repository cloned successfully", "Failed to clone repository: ")
}

/// The result of initialising a repository at `path`.
pub fn init_outcome(path: &str, error: Option<&str>) -> (r: CloneResult)
    ensures
        r.success == error is None,
        r.path@ == path@,
        r.message@ == match error {
            None => "Repository initialized successfully"@,
            Some(e) => "Failed to initialize repository: "@ + e@,
        },
{
    outcome(path, error, "Repository initialized successfully", "Failed to initialize repository: ")
}

/// The result of staging every path of the working tree at `path`.
pub fn add_all_outcome(path: &str) -> (r: CloneResult)
    ensures
        r.success,
        r.path@ == path@,
        r.message@ == "Added all changes to staging area"@,
{
    outcome(path, None, "Added all changes to staging area", "")
}

/// The result of committing with `message` at `path`.
pub fn commit_outcome(path: &str, message: &str, error: Option<&str>) -> (r: CloneResult)
    ensures
        r.success == error is None,
        r.path@ == path@,
        r.message@ == match error {
            None => "Committed changes: "@ + message@,
            Some(e) => "Failed to commit: "@ + e@,
        },
{
    let done = concat_str("Committed changes: ", message);
    outcome(path, error, done.as_str(), "Failed to commit: ")
}

/// The author used when the repository configures none.
pub fn fallback_signature() -> (r: (String, String))
    ensures
        r.0@ == "Postgirl"@,
        r.1@ == "postgirl@localhost"@,
{
    (String::from_str("Postgirl"), String::from_str("postgirl@localhost"))
}

} // verus!
