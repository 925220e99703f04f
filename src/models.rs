//! Records shared with the rest of the application: environment variables,
//! HTTP methods and timings, collection and workspace requests, and the
//! version-control records that are passed through unchanged.
use vstd::prelude::*;
use vstd::string::*;
use crate::text::{chars_eq, chars_of, is_whitespace, to_uppercase, trim_ws, uppercase_of};

verus! {

/// How an environment variable's value is treated.
#[derive(Clone, Copy, Debug, PartialEq, Eq, Structural, Hash)]
pub enum VariableType {
    String,
    Secret,
}

/// Whether `s` holds a character that is not white space.
pub open spec fn has_content(s: Seq<char>) -> bool {
    trim_ws(s).len() > 0
}

proof fn lemma_trim_empty_iff_all_white(s: Seq<char>)
    ensures
        (trim_ws(s).len() == 0) <==> (forall|i: int| 0 <= i < s.len() ==> crate::text::is_white_space(#[trigger] s[i])),
    decreases s.len(),
{
    lemma_trim_start_empty_iff_all_white(s);
    lemma_trim_end_empty_iff(crate::text::trim_start_ws(s));
}

proof fn lemma_trim_start_empty_iff_all_white(s: Seq<char>)
    ensures
        (crate::text::trim_start_ws(s).len() == 0) <==> (forall|i: int| 0 <= i < s.len() ==> crate::text::is_white_space(#[trigger] s[i])),
        crate::text::trim_start_ws(s).len() > 0 ==> !crate::text::is_white_space(crate::text::trim_start_ws(s)[0]),
    decreases s.len(),
{
    if s.len() > 0 && crate::text::is_white_space(s[0]) {
        let t = s.drop_first();
        lemma_trim_start_empty_iff_all_white(t);
        assert forall|i: int| 0 < i < s.len() implies s[i] == t[i - 1] by {}
        if forall|i: int| 0 <= i < t.len() ==> crate::text::is_white_space(#[trigger] t[i]) {
            assert forall|i: int| 0 <= i < s.len() implies crate::text::is_white_space(#[trigger] s[i]) by {
                if i > 0 {
                    assert(s[i] == t[i - 1]);
                }
            }
        } else {
            let k = choose|k: int| 0 <= k < t.len() && !crate::text::is_white_space(#[trigger] t[k]);
            assert(s[k + 1] == t[k]);
        }
    } else if s.len() > 0 {
        assert(!crate::text::is_white_space(s[0]));
    }
}

proof fn lemma_trim_end_empty_iff(s: Seq<char>)
    requires
        s.len() > 0 ==> !crate::text::is_white_space(s[0]),
    ensures
        (crate::text::trim_end_ws(s).len() == 0) <==> s.len() == 0,
    decreases s.len(),
{
    if s.len() > 0 && crate::text::is_white_space(s.last()) {
        let t = s.drop_last();
        if t.len() == 0 {
            assert(s.len() == 1);
            assert(s.last() == s[0]);
        } else {
            assert(t[0] == s[0]);
            lemma_trim_end_empty_iff(t);
        }
    }
}

impl VariableType {
    /// Any value is a valid string; a secret must hold a character that is not
    /// white space.
    pub fn validate_value(&self, value: &str) -> (r: bool)
        ensures
            r == match self {
                VariableType::String => true,
                VariableType::Secret => has_content(value@),
            },
    {
        match self {
            VariableType::String => true,
            VariableType::Secret => {
                let cs = chars_of(value);
                let mut i: usize = 0;
                while i < cs.len()
                    invariant
                        cs@ == value@,
                        *self == VariableType::Secret,
                        i <= cs@.len(),
                        forall|k: int| 0 <= k < i ==> crate::text::is_white_space(#[trigger] cs@[k]),
                    decreases cs@.len() - i,
                {
                    if !is_whitespace(cs[i]) {
                        proof {
                            lemma_trim_empty_iff_all_white(value@);
                        }
                        return true;
                    }
                    i = i + 1;
                }
                proof {
                    lemma_trim_empty_iff_all_white(value@);
                }
                false
            },
        }
    }

    pub fn as_str(&self) -> (r: &'static str)
        ensures
            r@ == match self {
                VariableType::String => "string"@,
                VariableType::Secret => "secret"@,
            },
    {
        match self {
            VariableType::String => "string",
            VariableType::Secret => "secret",
        }
    }

    /// `secret` names a secret; anything else a string.
    pub fn from_str(s: &str) -> (r: VariableType)
        ensures
            r == if s@ == "secret"@ {
                VariableType::Secret
            } else {
                VariableType::String
            },
    {
        let cs = chars_of(s);
        let secret = chars_of("secret");
        if chars_eq(cs.as_slice(), secret.as_slice()) {
            VariableType::Secret
        } else {
            VariableType::String
        }
    }
}

/// One variable of an environment.
#[derive(Clone, Debug)]
pub struct EnvironmentVariable {
    pub key: String,
    pub value: String,
    pub is_secret: bool,
    pub variable_type: VariableType,
}

impl Default for EnvironmentVariable {
    fn default() -> (r: EnvironmentVariable)
        ensures
            r.key@ == Seq::<char>::empty(),
            r.value@ == Seq::<char>::empty(),
            !r.is_secret,
            r.variable_type == VariableType::String,
    {
        EnvironmentVariable {
            key: String::new(),
            value: String::new(),
            is_secret: false,
            variable_type: VariableType::String,
        }
    }
}

/// The request methods of the HTTP client.
#[derive(Clone, Copy, Debug, PartialEq, Eq, Structural)]
pub enum HttpMethod {
    Get,
    Post,
    Put,
    Delete,
    Patch,
    Head,
    Options,
}

/// The method named by an uppercase method name; `GET` for an unknown name.
pub open spec fn method_named(s: Seq<char>) -> HttpMethod {
    if s == "POST"@ {
        HttpMethod::Post
    } else if s == "PUT"@ {
        HttpMethod::Put
    } else if s == "DELETE"@ {
        HttpMethod::Delete
    } else if s == "PATCH"@ {
        HttpMethod::Patch
    } else if s == "HEAD"@ {
        HttpMethod::Head
    } else if s == "OPTIONS"@ {
        HttpMethod::Options
    } else {
        HttpMethod::Get
    }
}

fn same_text(a: &[char], b: &str) -> (r: bool)
    ensures
        r == (a@ == b@),
{
    let bc = chars_of(b);
    chars_eq(a, bc.as_slice())
}

impl HttpMethod {
    pub fn as_str(&self) -> (r: &'static str)
        ensures
            r@ == match self {
                HttpMethod::Get => "GET"@,
                HttpMethod::Post => "POST"@,
                HttpMethod::Put => "PUT"@,
                HttpMethod::Delete => "DELETE"@,
                HttpMethod::Patch => "PATCH"@,
                HttpMethod::Head => "HEAD"@,
                HttpMethod::Options => "OPTIONS"@,
            },
    {
        match self {
            HttpMethod::Get => "GET",
            HttpMethod::Post => "POST",
            HttpMethod::Put => "PUT",
            HttpMethod::Delete => "DELETE",
            HttpMethod::Patch => "PATCH",
            HttpMethod::Head => "HEAD",
            HttpMethod::Options => "OPTIONS",
        }
    }

    /// The method named by `upper`, a name already in uppercase; `GET` for an
    /// unknown name.
    pub fn from_uppercase(upper: &str) -> (r: HttpMethod)
        ensures
            r == method_named(upper@),
    {
        let cs = chars_of(upper);
        if same_text(cs.as_slice(), "POST") {
            HttpMethod::Post
        } else if same_text(cs.as_slice(), "PUT") {
            HttpMethod::Put
        } else if same_text(cs.as_slice(), "DELETE") {
            HttpMethod::Delete
        } else if same_text(cs.as_slice(), "PATCH") {
            HttpMethod::Patch
        } else if same_text(cs.as_slice(), "HEAD") {
            HttpMethod::Head
        } else if same_text(cs.as_slice(), "OPTIONS") {
            HttpMethod::Options
        } else {
            HttpMethod::Get
        }
    }
}

impl<'a> From<&'a str> for HttpMethod {
    /// The method named by `method` in any case; `GET` for an unknown name.
    fn from(method: &'a str) -> (r: HttpMethod)
        ensures
            r == method_named(uppercase_of(method@)),
    {
        let upper = to_uppercase(method);
        HttpMethod::from_uppercase(upper.as_str())
    }
}

impl<'a> vstd::std_specs::convert::FromSpecImpl<&'a str> for HttpMethod {
    open spec fn obeys_from_spec() -> bool {
        true
    }

    open spec fn from_spec(v: &'a str) -> HttpMethod {
        method_named(uppercase_of(v@))
    }
}

/// The timing breakdown of an HTTP exchange, in milliseconds.
#[derive(Clone, Copy, Debug, PartialEq, Eq, Structural)]
pub struct ResponseTiming {
    pub total_time_ms: u64,
    pub dns_lookup_ms: Option<u64>,
    pub tcp_connect_ms: Option<u64>,
    pub tls_handshake_ms: Option<u64>,
    pub first_byte_ms: Option<u64>,
    pub download_ms: Option<u64>,
}

impl Default for ResponseTiming {
    fn default() -> (r: ResponseTiming)
        ensures
            r.total_time_ms == 0,
            r.dns_lookup_ms is None,
            r.tcp_connect_ms is None,
            r.tls_handshake_ms is None,
            r.first_byte_ms is None,
            r.download_ms is None,
    {
        ResponseTiming {
            total_time_ms: 0,
            dns_lookup_ms: None,
            tcp_connect_ms: None,
            tls_handshake_ms: None,
            first_byte_ms: None,
            download_ms: None,
        }
    }
}

/// The kinds of failure of an HTTP exchange.
#[derive(Clone, Copy, Debug, PartialEq, Eq, Structural)]
pub enum HttpErrorType {
    NetworkError,
    TimeoutError,
    SslError,
    InvalidUrl,
    InvalidRequest,
    InvalidResponse,
    UnknownError,
}

/// A request to create a collection.
#[derive(Clone, Debug)]
pub struct CreateCollectionRequest {
    pub workspace_id: String,
    pub name: String,
    pub description: Option<String>,
    pub folder_path: Option<String>,
    pub git_branch: Option<String>,
}

/// A request to change some fields of a collection.
#[derive(Clone, Debug)]
pub struct UpdateCollectionRequest {
    pub id: String,
    pub name: Option<String>,
    pub description: Option<String>,
    pub folder_path: Option<String>,
    pub git_branch: Option<String>,
    pub is_active: Option<bool>,
}

/// A request to create a workspace.
#[derive(Clone, Debug)]
pub struct CreateWorkspaceRequest {
    pub name: String,
    pub description: Option<String>,
    pub git_repository_url: Option<String>,
    pub local_path: String,
}

/// A request to change some fields of a workspace.
#[derive(Clone, Debug)]
pub struct UpdateWorkspaceRequest {
    pub id: String,
    pub name: Option<String>,
    pub description: Option<String>,
    pub git_repository_url: Option<String>,
    pub local_path: Option<String>,
    pub is_active: Option<bool>,
}

/// Credentials for a remote.
#[derive(Clone, Debug)]
pub struct GitCredentials {
    pub username: String,
    pub password: String,
    pub ssh_key_path: Option<String>,
}

/// A commit as shown to the user.
#[derive(Clone, Debug)]
pub struct GitCommit {
    pub hash: String,
    pub message: String,
    pub author: String,
    pub date: String,
    pub files_changed: usize,
}

/// A configured remote.
#[derive(Clone, Debug)]
pub struct GitRemote {
    pub name: String,
    pub url: String,
    pub fetch_url: String,
    pub push_url: String,
}

} // verus!
