//! Service handles and the pure parts of their work: the credential vault's
//! service name, file names for synced collections, and what the local
//! system's identity is made of.
use vstd::prelude::*;
use vstd::string::*;
use crate::text::{chars_eq, chars_of, is_control, is_control_char, lowercase_of, string_of, to_lowercase, trim_ws};

verus! {

/// The handle of the version-control engine. It holds nothing: every
/// operation opens the repository afresh.
#[derive(Clone, Copy, Debug)]
pub struct GitService;

impl GitService {
    pub fn new() -> (r: GitService) {
        GitService
    }
}

/// The handle of the credential vault.
#[derive(Clone, Copy, Debug)]
pub struct CredentialService;

impl CredentialService {
    pub fn new() -> (r: CredentialService) {
        CredentialService
    }

    /// The service under which every credential is stored.
    pub fn service_name(&self) -> (r: &'static str)
        ensures
            r@ == "postgirl"@,
    {
        "postgirl"
    }

    /// The stored keys. The vault cannot enumerate its entries, so the list
    /// is always empty.
    pub fn list_stored_credentials(&self) -> (r: Result<Vec<String>, String>)
        ensures
            r matches Ok(v) && v@.len() == 0,
    {
        Ok(Vec::new())
    }
}

/// A file-system-safe stand-in for `c`.
pub open spec fn filename_char(c: char) -> char {
    if c == ' ' {
        '-'
    } else if c == '/' || c == '\\' || c == ':' || c == '*' || c == '?' || c == '"' || c == '<'
        || c == '>' || c == '|' || is_control_char(c) {
        '_'
    } else {
        c
    }
}

/// `s` without leading and trailing dots.
pub open spec fn trim_dots(s: Seq<char>) -> Seq<char>
    decreases s.len(),
{
    if s.len() > 0 && s[0] == '.' {
        trim_dots(s.drop_first())
    } else if s.len() > 0 && s.last() == '.' {
        trim_dots(s.drop_last())
    } else {
        s
    }
}

/// The file name for a collection or environment called `name`: spaces become
/// hyphens, path and shell metacharacters and control characters underscores;
/// then dots are trimmed from both ends and the result is lowercased.
pub open spec fn safe_filename(name: Seq<char>) -> Seq<char> {
    lowercase_of(trim_dots(name.map_values(|c: char| filename_char(c))))
}

proof fn lemma_trim_dots_bounds(s: Seq<char>, a: int, b: int)
    requires
        0 <= a <= b <= s.len(),
        forall|k: int| 0 <= k < a ==> s[k] == '.',
        forall|k: int| b <= k < s.len() ==> s[k] == '.',
        a < b ==> s[a] != '.' && s[b - 1] != '.',
        a == b ==> b == s.len(),
    ensures
        trim_dots(s) == s.subrange(a, b),
    decreases s.len(),
{
    if s.len() > 0 && s[0] == '.' {
        let t = s.drop_first();
        if a == 0 {
            assert(b == s.len() || a < b);
        }
        let na = if a > 0 { a - 1 } else { 0 };
        assert(a > 0);
        assert forall|k: int| 0 <= k < na implies t[k] == '.' by {
            assert(t[k] == s[k + 1]);
        }
        assert forall|k: int| b - 1 <= k < t.len() implies t[k] == '.' by {
            assert(t[k] == s[k + 1]);
        }
        if na < b - 1 {
            assert(t[na] == s[a]);
            assert(t[b - 2] == s[b - 1]);
        }
        lemma_trim_dots_bounds(t, na, b - 1);
        assert(t.subrange(na, b - 1) =~= s.subrange(a, b));
    } else if s.len() > 0 && s.last() == '.' {
        let t = s.drop_last();
        assert(b < s.len());
        assert forall|k: int| 0 <= k < a implies t[k] == '.' by {
            assert(t[k] == s[k]);
        }
        assert forall|k: int| b <= k < t.len() implies t[k] == '.' by {
            assert(t[k] == s[k]);
        }
        if a < b {
            assert(t[a] == s[a]);
            assert(t[b - 1] == s[b - 1]);
        }
        lemma_trim_dots_bounds(t, a, b);
        assert(t.subrange(a, b) =~= s.subrange(a, b));
    } else {
        if s.len() > 0 {
            assert(a == 0 || s[0] == '.');
            assert(a == 0);
            assert(b == s.len());
        } else {
            assert(a == 0 && b == 0);
        }
        assert(s.subrange(a, b) =~= s);
    }
}

/// The pair of handles that syncs collections to files in the repository.
#[derive(Clone, Copy, Debug)]
pub struct FileSyncService {
    pub git_service: GitService,
}

impl FileSyncService {
    pub fn new() -> (r: FileSyncService) {
        FileSyncService { git_service: GitService::new() }
    }

    /// The file name under which a collection or environment called `name`
    /// is stored.
    pub fn sanitize_filename(&self, name: &str) -> (r: String)
        ensures
            r@ == safe_filename(name@),
    {
        let cs = chars_of(name);
        let ghost m = name@.map_values(|c: char| filename_char(c));
        let mut mapped: Vec<char> = Vec::new();
        let mut i: usize = 0;
        while i < cs.len()
            invariant
                cs@ == name@,
                m == name@.map_values(|c: char| filename_char(c)),
                i <= cs@.len(),
                mapped@ == m.take(i as int),
            decreases cs@.len() - i,
        {
            let c = cs[i];
            let d = if c == ' ' {
                '-'
            } else if c == '/' || c == '\\' || c == ':' || c == '*' || c == '?' || c == '"' || c
                == '<' || c == '>' || c == '|' || is_control(c) {
                '_'
            } else {
                c
            };
            mapped.push(d);
            i = i + 1;
            assert(mapped@ =~= m.take(i as int));
        }
        assert(m.take(m.len() as int) =~= m);
        let n = mapped.len();
        let mut a: usize = 0;
        while a < n && mapped[a] == '.'
            invariant
                n == m.len(),
                mapped@ == m,
                a <= n,
                forall|k: int| 0 <= k < a ==> m[k] == '.',
            decreases n - a,
        {
            a = a + 1;
        }
        let mut b: usize = n;
        while b > a && mapped[b - 1] == '.'
            invariant
                n == m.len(),
                mapped@ == m,
                a <= b <= n,
                forall|k: int| b <= k < n ==> m[k] == '.',
            decreases b,
        {
            b = b - 1;
        }
        let mut kept: Vec<char> = Vec::new();
        let mut k: usize = a;
        while k < b
            invariant
                mapped@ == m,
                a <= k <= b <= n,
                n == m.len(),
                kept@ == m.subrange(a as int, k as int),
            decreases b - k,
        {
            kept.push(mapped[k]);
            k = k + 1;
            assert(kept@ =~= m.subrange(a as int, k as int));
        }
        proof {
            lemma_trim_dots_bounds(m, a as int, b as int);
        }
        let trimmed = string_of(kept.as_slice());
        to_lowercase(trimmed.as_str())
    }
}

/// The first name present, else `unknown`.
pub open spec fn first_present(a: Option<Seq<char>>, b: Option<Seq<char>>, c: Option<Seq<char>>) -> Seq<char> {
    match (a, b, c) {
        (Some(x), _, _) => x,
        (None, Some(y), _) => y,
        (None, None, Some(z)) => z,
        _ => "unknown"@,
    }
}

pub open spec fn opt_view(o: Option<&str>) -> Option<Seq<char>> {
    match o {
        Some(s) => Some(s@),
        None => None,
    }
}

/// The label of an operating system named as Rust names its targets.
pub open spec fn os_label(target_os: Seq<char>) -> Seq<char> {
    if target_os == "macos"@ {
        "macOS"@
    } else if target_os == "linux"@ {
        "Linux"@
    } else if target_os == "windows"@ {
        "Windows"@
    } else {
        "Unknown"@
    }
}

/// The machine name: on macOS and Linux the trimmed output of `hostname`
/// (`unknown` when it could not run), on Windows the computer name (`unknown`
/// when unset), elsewhere `unknown`.
pub open spec fn machine_name_of(target_os: Seq<char>, hostname_output: Option<Seq<char>>, computer_name: Option<Seq<char>>) -> Seq<char> {
    if target_os == "macos"@ || target_os == "linux"@ {
        match hostname_output {
            Some(o) => trim_ws(o),
            None => "unknown"@,
        }
    } else if target_os == "windows"@ {
        match computer_name {
            Some(c) => c,
            None => "unknown"@,
        }
    } else {
        "unknown"@
    }
}

pub(crate) fn text_is(s: &str, t: &str) -> (r: bool)
    ensures
        r == (s@ == t@),
{
    let a = chars_of(s);
    let b = chars_of(t);
    chars_eq(a.as_slice(), b.as_slice())
}

pub(crate) fn owned_or_unknown(s: Option<&str>) -> (r: String)
    ensures
        r@ == match s {
            Some(x) => x@,
            None => "unknown"@,
        },
{
    match s {
        Some(x) => String::from_str(x),
        None => String::from_str("unknown"),
    }
}

} // verus!
