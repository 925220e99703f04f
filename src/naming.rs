//! Branch-name generation: template filling, sanitising of free text, length
//! limiting and validation against the ref-name grammar.
use vstd::prelude::*;
use vstd::string::*;
use crate::text::{
    alphanumeric, chars_of, contains_chars, contains_seq, extend_chars, is_alphanumeric,
    is_ascii_alphanumeric, lowercase_of, matches_at, string_of, to_lowercase,
};

verus! {

/// The closed set of feature categories a branch can belong to.
#[derive(Clone, Copy, Debug, PartialEq, Eq, Structural)]
pub enum FeatureType {
    Feature,
    Bugfix,
    Hotfix,
    Experiment,
    Refactor,
    Documentation,
}

/// The canonical lowercase token of a feature type.
pub open spec fn feature_token(f: FeatureType) -> Seq<char> {
    match f {
        FeatureType::Feature => "feature"@,
        FeatureType::Bugfix => "bugfix"@,
        FeatureType::Hotfix => "hotfix"@,
        FeatureType::Experiment => "experiment"@,
        FeatureType::Refactor => "refactor"@,
        FeatureType::Documentation => "docs"@,
    }
}

impl FeatureType {
    /// The canonical token, as used in branch names.
    pub fn as_str(&self) -> (r: &'static str)
        ensures
            r@ == feature_token(*self),
    {
        match self {
            FeatureType::Feature => "feature",
            FeatureType::Bugfix => "bugfix",
            FeatureType::Hotfix => "hotfix",
            FeatureType::Experiment => "experiment",
            FeatureType::Refactor => "refactor",
            FeatureType::Documentation => "docs",
        }
    }

    /// The canonical token as an owned string.
    pub fn to_string(&self) -> (r: String)
        ensures
            r@ == feature_token(*self),
    {
        String::from_str(self.as_str())
    }
}

/// The input of a branch-name template.
#[derive(Clone, Debug)]
pub struct BranchPattern {
    pub workspace: String,
    pub username: String,
    pub machine: String,
    pub feature_type: FeatureType,
    pub description: Option<String>,
}

/// What a branch pattern says, as mathematical values.
pub struct PatternView {
    pub workspace: Seq<char>,
    pub username: Seq<char>,
    pub machine: Seq<char>,
    pub feature_type: FeatureType,
    pub description: Option<Seq<char>>,
}

impl View for BranchPattern {
    type V = PatternView;

    open spec fn view(&self) -> PatternView {
        PatternView {
            workspace: self.workspace@,
            username: self.username@,
            machine: self.machine@,
            feature_type: self.feature_type,
            description: match self.description {
                Some(d) => Some(d@),
                None => None,
            },
        }
    }
}

impl BranchPattern {
    /// A field-by-field copy.
    pub fn duplicate(&self) -> (r: BranchPattern)
        ensures
            r == *self,
    {
        BranchPattern {
            workspace: self.workspace.clone(),
            username: self.username.clone(),
            machine: self.machine.clone(),
            feature_type: self.feature_type,
            description: match &self.description {
                Some(d) => Some(d.clone()),
                None => None,
            },
        }
    }
}

/// The local user, machine and operating system.
#[derive(Clone, Debug)]
pub struct SystemInfo {
    pub username: String,
    pub machine_name: String,
    pub os_type: String,
}

impl SystemInfo {
    /// A field-by-field copy.
    pub fn duplicate(&self) -> (r: SystemInfo)
        ensures
            r == *self,
    {
        SystemInfo {
            username: self.username.clone(),
            machine_name: self.machine_name.clone(),
            os_type: self.os_type.clone(),
        }
    }
}

/// Settings that drive branch-name generation.
#[derive(Clone, Debug)]
pub struct BranchConfig {
    pub auto_create_branches: bool,
    pub default_feature_type: FeatureType,
    /// A template holding `{workspace}`, `{username}`, `{machine}` and `{feature}`.
    pub branch_prefix_pattern: String,
    pub max_branch_name_length: usize,
    pub allowed_feature_types: Vec<FeatureType>,
}

pub open spec fn default_template() -> Seq<char> {
    "{workspace}/{username}-{machine}/{feature}"@
}

pub open spec fn all_feature_types() -> Seq<FeatureType> {
    seq![
        FeatureType::Feature,
        FeatureType::Bugfix,
        FeatureType::Hotfix,
        FeatureType::Experiment,
        FeatureType::Refactor,
        FeatureType::Documentation,
    ]
}

impl Default for BranchConfig {
    fn default() -> (r: BranchConfig)
        ensures
            r.auto_create_branches,
            r.default_feature_type == FeatureType::Feature,
            r.branch_prefix_pattern@ == default_template(),
            r.max_branch_name_length == 100,
            r.allowed_feature_types@ == all_feature_types(),
    {
        let r = BranchConfig {
            auto_create_branches: true,
            default_feature_type: FeatureType::Feature,
            branch_prefix_pattern: String::from_str("{workspace}/{username}-{machine}/{feature}"),
            max_branch_name_length: 100,
            allowed_feature_types: vec![
                FeatureType::Feature,
                FeatureType::Bugfix,
                FeatureType::Hotfix,
                FeatureType::Experiment,
                FeatureType::Refactor,
                FeatureType::Documentation,
            ],
        };
        assert(r.allowed_feature_types@ =~= all_feature_types());
        r
    }
}

// ---------------------------------------------------------------------------
// Sanitising
// ---------------------------------------------------------------------------

/// Characters that survive sanitising unchanged.
pub open spec fn kept_char(c: char) -> bool {
    alphanumeric(c) || c == '-' || c == '_'
}

/// Every character that is not kept becomes a hyphen.
pub open spec fn hyphenate(s: Seq<char>) -> Seq<char> {
    s.map_values(|c: char| if kept_char(c) { c } else { '-' })
}

/// `s` with leading hyphens dropped and every run of hyphens reduced to one;
/// a single trailing hyphen may remain.
pub open spec fn squeeze_hyphens(s: Seq<char>) -> Seq<char>
    decreases s.len(),
{
    if s.len() == 0 {
        s
    } else {
        let p = squeeze_hyphens(s.drop_last());
        if s.last() != '-' {
            p.push(s.last())
        } else if p.len() == 0 || p.last() == '-' {
            p
        } else {
            p.push('-')
        }
    }
}

/// The non-empty hyphen-separated segments of `s`, joined by single hyphens.
pub open spec fn collapse_hyphens(s: Seq<char>) -> Seq<char> {
    let q = squeeze_hyphens(s);
    if q.len() > 0 && q.last() == '-' {
        q.drop_last()
    } else {
        q
    }
}

/// Sanitising of text that is already lowercase.
pub open spec fn normalized(s: Seq<char>) -> Seq<char> {
    collapse_hyphens(hyphenate(s))
}

/// Sanitising of a free-text name component.
pub open spec fn sanitized(s: Seq<char>) -> Seq<char> {
    normalized(lowercase_of(s))
}

/// A character a sanitised name may hold: any non-ASCII character, or an
/// ASCII letter, digit, `-` or `_`.
pub open spec fn name_part_char(c: char) -> bool {
    (c as u32) >= 0x80 || is_ascii_alphanumeric(c) || c == '-' || c == '_'
}

/// Maps every character that is not alphanumeric, `-` or `_` to a hyphen, drops
/// empty hyphen-separated segments and joins the rest with single hyphens.
pub fn normalize_name(lowered: &str) -> (r: String)
    ensures
        r@ == normalized(lowered@),
        forall|i: int| 0 <= i < r@.len() ==> name_part_char(#[trigger] r@[i]),
{
    let cs = chars_of(lowered);
    let ghost h = hyphenate(cs@);
    let mut out: Vec<char> = Vec::new();
    let mut i: usize = 0;
    while i < cs.len()
        invariant
            h == hyphenate(cs@),
            i <= cs@.len(),
            out@ == squeeze_hyphens(h.take(i as int)),
            forall|k: int| 0 <= k < out@.len() ==> name_part_char(#[trigger] out@[k]),
        decreases cs@.len() - i,
    {
        let c = cs[i];
        let m = if is_alphanumeric(c) || c == '-' || c == '_' {
            c
        } else {
            '-'
        };
        assert(h.take(i + 1).drop_last() =~= h.take(i as int));
        assert(h.take(i + 1).last() == m);
        if m != '-' {
            out.push(m);
        } else if out.len() > 0 && out[out.len() - 1] != '-' {
            out.push('-');
        }
        i = i + 1;
    }
    assert(h.take(cs@.len() as int) =~= h);
    if out.len() > 0 && out[out.len() - 1] == '-' {
        out.pop();
        assert(out@ =~= squeeze_hyphens(h).drop_last());
    }
    string_of(out.as_slice())
}

// ---------------------------------------------------------------------------
// Validation
// ---------------------------------------------------------------------------

/// Characters that a branch name may not hold.
pub open spec fn forbidden_char(c: char) -> bool {
    c == '~' || c == '^' || c == ':' || c == '?' || c == '*' || c == '[' || c == '\\' || c == ' '
}

pub open spec fn has_forbidden_char(s: Seq<char>) -> bool {
    exists|i: int| 0 <= i < s.len() && forbidden_char(#[trigger] s[i])
}

/// The message of the first grammar rule that `s` breaks, if any.
pub open spec fn name_violation(s: Seq<char>) -> Option<Seq<char>> {
    if s.len() == 0 {
        Some("Branch name cannot be empty"@)
    } else if s[0] == '-' || s.last() == '-' {
        Some("Branch name cannot start or end with hyphen"@)
    } else if contains_seq(s, seq!['.', '.']) || contains_seq(s, seq!['/', '/']) {
        Some("Branch name cannot contain consecutive dots or slashes"@)
    } else if has_forbidden_char(s) {
        Some("Branch name contains forbidden characters"@)
    } else {
        None
    }
}

/// Whether `s` obeys the branch-name grammar.
pub open spec fn valid_branch_name(s: Seq<char>) -> bool {
    name_violation(s) is None
}

/// Checks `name` against the branch-name grammar: not empty, no leading or
/// trailing hyphen, no `..` or `//`, none of `~ ^ : ? * [ \` or a space.
pub fn check_branch_name(name: &[char]) -> (r: Result<(), String>)
    ensures
        match r {
            Ok(_) => name_violation(name@) is None,
            Err(e) => name_violation(name@) == Some(e@),
        },
{
    let n = name.len();
    if n == 0 {
        return Err(String::from_str("Branch name cannot be empty"));
    }
    if name[0] == '-' || name[n - 1] == '-' {
        return Err(String::from_str("Branch name cannot start or end with hyphen"));
    }
    let dots: Vec<char> = vec!['.', '.'];
    let slashes: Vec<char> = vec!['/', '/'];
    assert(dots@ =~= seq!['.', '.']);
    assert(slashes@ =~= seq!['/', '/']);
    if contains_chars(name, dots.as_slice()) || contains_chars(name, slashes.as_slice()) {
        return Err(String::from_str("Branch name cannot contain consecutive dots or slashes"));
    }
    let mut i: usize = 0;
    while i < n
        invariant
            n == name@.len(),
            n > 0,
            name@[0] != '-' && name@.last() != '-',
            !contains_seq(name@, seq!['.', '.']) && !contains_seq(name@, seq!['/', '/']),
            i <= n,
            forall|k: int| 0 <= k < i ==> !forbidden_char(#[trigger] name@[k]),
        decreases n - i,
    {
        let c = name[i];
        if c == '~' || c == '^' || c == ':' || c == '?' || c == '*' || c == '[' || c == '\\' || c
            == ' ' {
            assert(forbidden_char(name@[i as int]));
            return Err(String::from_str("Branch name contains forbidden characters"));
        }
        i = i + 1;
    }
    Ok(())
}

// ---------------------------------------------------------------------------
// Template filling and length limiting
// ---------------------------------------------------------------------------

/// `s` with every non-overlapping occurrence of `pat`, taken from the left,
/// replaced by `rep`.
pub open spec fn replace_all(s: Seq<char>, pat: Seq<char>, rep: Seq<char>) -> Seq<char>
    decreases s.len(),
{
    if pat.len() == 0 || s.len() < pat.len() {
        s
    } else if s.take(pat.len() as int) == pat {
        rep + replace_all(s.skip(pat.len() as int), pat, rep)
    } else {
        seq![s[0]] + replace_all(s.skip(1), pat, rep)
    }
}

/// Replaces every non-overlapping occurrence of `pat` in `s` by `rep`.
pub fn replace_chars(s: &[char], pat: &[char], rep: &[char]) -> (r: Vec<char>)
    requires
        pat@.len() > 0,
    ensures
        r@ == replace_all(s@, pat@, rep@),
{
    let mut out: Vec<char> = Vec::new();
    let mut i: usize = 0;
    assert(s@.skip(0) =~= s@);
    assert(out@ + s@ =~= s@);
    while i < s.len()
        invariant
            pat@.len() > 0,
            i <= s@.len(),
            replace_all(s@, pat@, rep@) == out@ + replace_all(s@.skip(i as int), pat@, rep@),
        decreases s@.len() - i,
    {
        let ghost rest = s@.skip(i as int);
        if matches_at(s, pat, i) {
            assert(rest.take(pat@.len() as int) =~= s@.subrange(i as int, i + pat@.len()));
            assert(rest.skip(pat@.len() as int) =~= s@.skip(i + pat@.len()));
            extend_chars(&mut out, rep);
            i = i + pat.len();
        } else {
            assert(rest.skip(1) =~= s@.skip(i + 1));
            proof {
                if rest.len() >= pat@.len() {
                    assert(rest.take(pat@.len() as int) =~= s@.subrange(i as int, i + pat@.len()));
                } else {
                    assert(rest =~= seq![rest[0]] + rest.skip(1));
                }
            }
            out.push(s[i]);
            i = i + 1;
            assert(out@ + replace_all(s@.skip(i as int), pat@, rep@) =~= out@.drop_last() + (seq![
                rest[0],
            ] + replace_all(rest.skip(1), pat@, rep@)));
        }
    }
    assert(s@.skip(i as int) =~= Seq::<char>::empty());
    assert(out@ + Seq::<char>::empty() =~= out@);
    out
}

/// The number of bytes of `c` in UTF-8.
pub open spec fn utf8_width(c: char) -> nat {
    let u = c as u32;
    if u < 0x80 {
        1
    } else if u < 0x800 {
        2
    } else if u < 0x10000 {
        3
    } else {
        4
    }
}

/// The number of bytes of `s` in UTF-8.
pub open spec fn utf8_len(s: Seq<char>) -> nat
    decreases s.len(),
{
    if s.len() == 0 {
        0
    } else {
        utf8_len(s.drop_last()) + utf8_width(s.last())
    }
}

/// `s` with characters dropped from its end until it fits in `max` bytes.
pub open spec fn fit_to(s: Seq<char>, max: nat) -> Seq<char>
    decreases s.len(),
{
    if s.len() == 0 || utf8_len(s) <= max {
        s
    } else {
        fit_to(s.drop_last(), max)
    }
}

/// `s` without its trailing hyphens.
pub open spec fn trim_trailing_hyphens(s: Seq<char>) -> Seq<char>
    decreases s.len(),
{
    if s.len() > 0 && s.last() == '-' {
        trim_trailing_hyphens(s.drop_last())
    } else {
        s
    }
}

pub open spec fn workspace_slot() -> Seq<char> {
    "{workspace}"@
}

pub open spec fn username_slot() -> Seq<char> {
    "{username}"@
}

pub open spec fn machine_slot() -> Seq<char> {
    "{machine}"@
}

pub open spec fn feature_slot() -> Seq<char> {
    "{feature}"@
}

/// The template with its four placeholders filled in.
pub open spec fn filled_template(template: Seq<char>, p: PatternView) -> Seq<char> {
    let a = replace_all(template, workspace_slot(), sanitized(p.workspace));
    let b = replace_all(a, username_slot(), sanitized(p.username));
    let c = replace_all(b, machine_slot(), sanitized(p.machine));
    replace_all(c, feature_slot(), feature_token(p.feature_type))
}

/// The filled template, followed by `-` and the sanitised description when
/// that is not empty.
pub open spec fn untruncated_name(template: Seq<char>, p: PatternView) -> Seq<char> {
    let base = filled_template(template, p);
    match p.description {
        Some(d) => if sanitized(d).len() > 0 {
            base + seq!['-'] + sanitized(d)
        } else {
            base
        },
        None => base,
    }
}

/// The name before validation: the untruncated name, cut to `max` bytes and
/// stripped of trailing hyphens when it is longer than that.
pub open spec fn candidate_name(c: BranchConfig, p: PatternView) -> Seq<char> {
    let n = untruncated_name(c.branch_prefix_pattern@, p);
    if utf8_len(n) > c.max_branch_name_length {
        trim_trailing_hyphens(fit_to(n, c.max_branch_name_length as nat))
    } else {
        n
    }
}

/// The outcome of generating a branch name: the candidate when it is valid,
/// else the message of the rule it breaks.
pub open spec fn generated_name(c: BranchConfig, p: PatternView) -> Result<Seq<char>, Seq<char>> {
    let n = candidate_name(c, p);
    match name_violation(n) {
        None => Ok(n),
        Some(m) => Err(m),
    }
}

proof fn lemma_utf8_len_step(s: Seq<char>, j: int)
    requires
        0 <= j < s.len(),
    ensures
        utf8_len(s.take(j + 1)) == utf8_len(s.take(j)) + utf8_width(s[j]),
{
    assert(s.take(j + 1).drop_last() =~= s.take(j));
}

proof fn lemma_utf8_len_monotone(s: Seq<char>, j: int, k: int)
    requires
        0 <= j <= k <= s.len(),
    ensures
        utf8_len(s.take(j)) <= utf8_len(s.take(k)),
    decreases k - j,
{
    if j < k {
        lemma_utf8_len_step(s, k - 1);
        lemma_utf8_len_monotone(s, j, k - 1);
    }
}

/// `fit_to` keeps the longest prefix that fits.
proof fn lemma_fit_to_prefix(s: Seq<char>, max: nat, k: int)
    requires
        0 <= k <= s.len(),
        utf8_len(s.take(k)) <= max,
        k < s.len() ==> utf8_len(s.take(k + 1)) > max,
    ensures
        fit_to(s, max) == s.take(k),
    decreases s.len(),
{
    if k == s.len() {
        assert(s.take(k) =~= s);
    } else {
        lemma_utf8_len_monotone(s, k + 1, s.len() as int);
        assert(s.take(s.len() as int) =~= s);
        let t = s.drop_last();
        assert(t.take(k) =~= s.take(k));
        if k + 1 < s.len() {
            assert(t.take(k + 1) =~= s.take(k + 1));
        }
        lemma_fit_to_prefix(t, max, k);
    }
}

/// The number of bytes of `c` in UTF-8.
fn utf8_width_of(c: char) -> (w: usize)
    ensures
        w == utf8_width(c),
{
    let u = c as u32;
    if u < 0x80 {
        1
    } else if u < 0x800 {
        2
    } else if u < 0x10000 {
        3
    } else {
        4
    }
}

/// The length of the longest prefix of `s` that fits in `max` bytes of UTF-8.
fn fitting_prefix_len(s: &[char], max: usize) -> (k: usize)
    ensures
        k <= s@.len(),
        utf8_len(s@.take(k as int)) <= max,
        k < s@.len() ==> utf8_len(s@.take(k + 1)) > max,
{
    let mut used: usize = 0;
    let mut i: usize = 0;
    while i < s.len()
        invariant
            i <= s@.len(),
            used == utf8_len(s@.take(i as int)),
            used <= max,
        decreases s@.len() - i,
    {
        let w = utf8_width_of(s[i]);
        proof {
            lemma_utf8_len_step(s@, i as int);
        }
        if w > max - used {
            return i;
        }
        used = used + w;
        i = i + 1;
    }
    i
}

/// Drops every trailing hyphen of `v`.
fn pop_trailing_hyphens(v: &mut Vec<char>)
    ensures
        final(v)@ == trim_trailing_hyphens(old(v)@),
{
    while v.len() > 0 && v[v.len() - 1] == '-'
        invariant
            trim_trailing_hyphens(v@) == trim_trailing_hyphens(old(v)@),
        decreases v@.len(),
    {
        let ghost before = v@;
        v.pop();
        assert(v@ =~= before.drop_last());
    }
}

/// Turns branch patterns into names under a configuration, for one user and machine.
#[derive(Clone, Debug)]
pub struct BranchGenerator {
    pub config: BranchConfig,
    pub system_info: SystemInfo,
}

impl BranchGenerator {
    pub fn new(config: BranchConfig, system_info: SystemInfo) -> (r: BranchGenerator)
        ensures
            r.config == config,
            r.system_info == system_info,
    {
        BranchGenerator { config, system_info }
    }

    /// Fills the configured template from `pattern`, appends the sanitised
    /// description, limits the length and validates the result.
    pub fn generate_branch_name(&self, pattern: &BranchPattern) -> (r: Result<String, String>)
        ensures
            match r {
                Ok(n) => generated_name(self.config, pattern@) == Ok::<Seq<char>, Seq<char>>(n@),
                Err(e) => generated_name(self.config, pattern@) == Err::<Seq<char>, Seq<char>>(
                    e@,
                ),
            },
    {
        proof {
            reveal_strlit("{workspace}");
            reveal_strlit("{username}");
            reveal_strlit("{machine}");
            reveal_strlit("{feature}");
        }
        let template = chars_of(self.config.branch_prefix_pattern.as_str());
        let ws_slot = chars_of("{workspace}");
        let user_slot = chars_of("{username}");
        let machine_slot_chars = chars_of("{machine}");
        let feature_slot_chars = chars_of("{feature}");
        let ws = chars_of(self.sanitize_name(pattern.workspace.as_str()).as_str());
        let user = chars_of(self.sanitize_name(pattern.username.as_str()).as_str());
        let machine = chars_of(self.sanitize_name(pattern.machine.as_str()).as_str());
        let token = chars_of(pattern.feature_type.as_str());
        let a = replace_chars(template.as_slice(), ws_slot.as_slice(), ws.as_slice());
        let b = replace_chars(a.as_slice(), user_slot.as_slice(), user.as_slice());
        let c = replace_chars(b.as_slice(), machine_slot_chars.as_slice(), machine.as_slice());
        let mut name = replace_chars(c.as_slice(), feature_slot_chars.as_slice(), token.as_slice());
        match &pattern.description {
            Some(d) => {
                let desc = chars_of(self.sanitize_name(d.as_str()).as_str());
                if desc.len() > 0 {
                    name.push('-');
                    extend_chars(&mut name, desc.as_slice());
                }
            },
            None => {},
        }
        assert(name@ == untruncated_name(self.config.branch_prefix_pattern@, pattern@));
        let max = self.config.max_branch_name_length;
        let k = fitting_prefix_len(name.as_slice(), max);
        proof {
            lemma_fit_to_prefix(name@, max as nat, k as int);
            if k == name@.len() {
                assert(name@.take(k as int) =~= name@);
            } else {
                lemma_utf8_len_monotone(name@, k + 1, name@.len() as int);
                assert(name@.take(name@.len() as int) =~= name@);
            }
        }
        if k < name.len() {
            name.truncate(k);
            pop_trailing_hyphens(&mut name);
        }
        assert(name@ == candidate_name(self.config, pattern@));
        match check_branch_name(name.as_slice()) {
            Ok(_) => Ok(string_of(name.as_slice())),
            Err(e) => Err(e),
        }
    }

    /// Lowercases `name`, maps every character that is not alphanumeric, `-` or
    /// `_` to a hyphen and joins the non-empty hyphen-separated segments with
    /// single hyphens.
    pub fn sanitize_name(&self, name: &str) -> (r: String)
        ensures
            r@ == sanitized(name@),
            forall|i: int| 0 <= i < r@.len() ==> name_part_char(#[trigger] r@[i]),
    {
        let lowered = to_lowercase(name);
        normalize_name(lowered.as_str())
    }

    /// Checks `name` against the branch-name grammar.
    pub fn validate_branch_name(&self, name: &str) -> (r: Result<(), String>)
        ensures
            match r {
                Ok(_) => valid_branch_name(name@),
                Err(e) => name_violation(name@) == Some(e@),
            },
    {
        let cs = chars_of(name);
        check_branch_name(cs.as_slice())
    }

    /// A pattern for `workspace_name` with this machine's user and host, and the
    /// given feature type or else the configured default.
    pub fn suggest_pattern(&self, workspace_name: &str, feature_type: Option<FeatureType>) -> (r:
        BranchPattern)
        ensures
            r.workspace@ == workspace_name@,
            r.username@ == self.system_info.username@,
            r.machine@ == self.system_info.machine_name@,
            r.feature_type == match feature_type {
                Some(f) => f,
                None => self.config.default_feature_type,
            },
            r.description is None,
    {
        let ft = match feature_type {
            Some(f) => f,
            None => self.config.default_feature_type,
        };
        BranchPattern {
            workspace: String::from_str(workspace_name),
            username: self.system_info.username.clone(),
            machine: self.system_info.machine_name.clone(),
            feature_type: ft,
            description: None,
        }
    }
}

// ---------------------------------------------------------------------------
// Laws
// ---------------------------------------------------------------------------

pub open spec fn all_kept(s: Seq<char>) -> bool {
    forall|i: int| 0 <= i < s.len() ==> kept_char(#[trigger] s[i])
}

/// No leading hyphen and no two hyphens in a row.
pub open spec fn hyphens_separate(s: Seq<char>) -> bool {
    forall|i: int| 0 <= i < s.len() && #[trigger] s[i] == '-' ==> i > 0 && s[i - 1] != '-'
}

proof fn lemma_squeeze_shape(s: Seq<char>)
    ensures
        hyphens_separate(squeeze_hyphens(s)),
        all_kept(s) ==> all_kept(squeeze_hyphens(s)),
    decreases s.len(),
{
    if s.len() > 0 {
        let t = s.drop_last();
        lemma_squeeze_shape(t);
        if all_kept(s) {
            assert forall|i: int| 0 <= i < t.len() implies kept_char(#[trigger] t[i]) by {
                assert(t[i] == s[i]);
            }
        }
        let p = squeeze_hyphens(t);
        let q = squeeze_hyphens(s);
        assert forall|i: int| 0 <= i < q.len() && #[trigger] q[i] == '-' implies i > 0 && q[i
            - 1] != '-' by {
            if i < p.len() {
                assert(q[i] == p[i]);
                if i > 0 {
                    assert(q[i - 1] == p[i - 1]);
                }
            }
        }
        if all_kept(s) {
            assert forall|i: int| 0 <= i < q.len() implies kept_char(#[trigger] q[i]) by {
                if i < p.len() {
                    assert(q[i] == p[i]);
                }
            }
        }
    }
}

proof fn lemma_squeeze_fixes_separated(s: Seq<char>)
    requires
        hyphens_separate(s),
    ensures
        squeeze_hyphens(s) == s,
    decreases s.len(),
{
    if s.len() > 0 {
        let t = s.drop_last();
        assert forall|i: int| 0 <= i < t.len() && #[trigger] t[i] == '-' implies i > 0 && t[i
            - 1] != '-' by {
            assert(s[i] == t[i]);
        }
        lemma_squeeze_fixes_separated(t);
        if s.last() == '-' {
            assert(s[s.len() - 1] == '-');
        }
        assert(t.push(s.last()) =~= s);
    }
}

proof fn lemma_normalized_shape(s: Seq<char>)
    ensures
        all_kept(normalized(s)),
        hyphens_separate(normalized(s)),
        normalized(s).len() > 0 ==> normalized(s).last() != '-',
{
    let h = hyphenate(s);
    assert forall|i: int| 0 <= i < h.len() implies kept_char(#[trigger] h[i]) by {}
    lemma_squeeze_shape(h);
    let q = squeeze_hyphens(h);
    if q.len() > 0 && q.last() == '-' {
        let t = q.drop_last();
        assert forall|i: int| 0 <= i < t.len() implies kept_char(#[trigger] t[i]) by {
            assert(t[i] == q[i]);
        }
        assert forall|i: int| 0 <= i < t.len() && #[trigger] t[i] == '-' implies i > 0 && t[i
            - 1] != '-' by {
            assert(t[i] == q[i]);
        }
        if t.len() > 0 {
            assert(q[q.len() - 1] == '-');
            assert(t.last() == q[q.len() - 2]);
        }
    }
}

/// Sanitising text that is already lowercase is idempotent: applying it to
/// its own result changes nothing.
pub proof fn lemma_normalize_idempotent(s: Seq<char>)
    ensures
        normalized(normalized(s)) == normalized(s),
{
    let t = normalized(s);
    lemma_normalized_shape(s);
    assert(hyphenate(t) =~= t);
    lemma_squeeze_fixes_separated(t);
}

/// Sanitising is idempotent on every input whose sanitised form lowercasing
/// leaves unchanged.
pub proof fn lemma_sanitize_idempotent(x: Seq<char>)
    requires
        lowercase_of(sanitized(x)) == sanitized(x),
    ensures
        sanitized(sanitized(x)) == sanitized(x),
{
    lemma_normalize_idempotent(lowercase_of(x));
}

/// Every generated name obeys the grammar: it is not empty, neither starts nor
/// ends with a hyphen, holds no `..` and no `//`, and none of `~ ^ : ? * [ \`
/// or a space.
pub proof fn lemma_generated_names_obey_grammar(c: BranchConfig, p: PatternView)
    ensures
        generated_name(c, p) matches Ok(n) ==> {
            &&& n.len() > 0
            &&& n[0] != '-'
            &&& n.last() != '-'
            &&& !contains_seq(n, seq!['.', '.'])
            &&& !contains_seq(n, seq!['/', '/'])
            &&& forall|i: int| 0 <= i < n.len() ==> !forbidden_char(#[trigger] n[i])
        },
{
}

proof fn lemma_fit_to_fits(s: Seq<char>, max: nat)
    ensures
        utf8_len(fit_to(s, max)) <= max,
        fit_to(s, max).len() <= s.len(),
        s.take(fit_to(s, max).len() as int) == fit_to(s, max),
    decreases s.len(),
{
    if s.len() == 0 || utf8_len(s) <= max {
        assert(s.take(s.len() as int) =~= s);
    } else {
        let t = s.drop_last();
        lemma_fit_to_fits(t, max);
        let f = fit_to(t, max);
        assert(s.take(f.len() as int) =~= t.take(f.len() as int));
    }
}

proof fn lemma_trim_is_prefix(s: Seq<char>)
    ensures
        trim_trailing_hyphens(s).len() <= s.len(),
        s.take(trim_trailing_hyphens(s).len() as int) == trim_trailing_hyphens(s),
        trim_trailing_hyphens(s).len() > 0 ==> trim_trailing_hyphens(s).last() != '-',
    decreases s.len(),
{
    if s.len() > 0 && s.last() == '-' {
        let t = s.drop_last();
        lemma_trim_is_prefix(t);
        let r = trim_trailing_hyphens(t);
        assert(s.take(r.len() as int) =~= t.take(r.len() as int));
    } else {
        assert(s.take(s.len() as int) =~= s);
    }
}

/// A name longer than the configured maximum is cut: the result fits in the
/// maximum number of bytes, is a prefix of the full name and does not end with
/// a hyphen.
pub proof fn lemma_long_names_are_truncated(c: BranchConfig, p: PatternView)
    requires
        utf8_len(untruncated_name(c.branch_prefix_pattern@, p)) > c.max_branch_name_length,
    ensures
        generated_name(c, p) matches Ok(n) ==> {
            let full = untruncated_name(c.branch_prefix_pattern@, p);
            &&& utf8_len(n) <= c.max_branch_name_length
            &&& n.len() <= full.len()
            &&& full.take(n.len() as int) == n
            &&& n.last() != '-'
        },
{
    let full = untruncated_name(c.branch_prefix_pattern@, p);
    let max = c.max_branch_name_length as nat;
    let f = fit_to(full, max);
    lemma_fit_to_fits(full, max);
    lemma_trim_is_prefix(f);
    let n = trim_trailing_hyphens(f);
    lemma_utf8_len_monotone(f, n.len() as int, f.len() as int);
    assert(f.take(f.len() as int) =~= f);
    assert(full.take(n.len() as int) =~= f.take(n.len() as int));
}

/// Truncation cuts exactly at the limit: when the first `k` characters of the
/// full name take exactly the maximum number of bytes (for ASCII names,
/// `k` is the maximum itself), the candidate is those `k` characters without
/// trailing hyphens, and so is the generated name when it is valid.
pub proof fn lemma_truncation_cuts_at_limit(c: BranchConfig, p: PatternView, k: int)
    requires
        utf8_len(untruncated_name(c.branch_prefix_pattern@, p)) > c.max_branch_name_length,
        0 <= k <= untruncated_name(c.branch_prefix_pattern@, p).len(),
        utf8_len(untruncated_name(c.branch_prefix_pattern@, p).take(k))
            == c.max_branch_name_length,
    ensures
        candidate_name(c, p) == trim_trailing_hyphens(
            untruncated_name(c.branch_prefix_pattern@, p).take(k),
        ),
        generated_name(c, p) matches Ok(n) ==> n == trim_trailing_hyphens(
            untruncated_name(c.branch_prefix_pattern@, p).take(k),
        ),
{
    let full = untruncated_name(c.branch_prefix_pattern@, p);
    let max = c.max_branch_name_length as nat;
    if k == full.len() {
        assert(full.take(k) =~= full);
    }
    assert(k < full.len());
    lemma_utf8_len_step(full, k);
    lemma_fit_to_prefix(full, max, k);
}

/// On ASCII text the UTF-8 length is the number of characters.
pub proof fn lemma_ascii_utf8_len(s: Seq<char>)
    requires
        forall|i: int| 0 <= i < s.len() ==> (#[trigger] s[i] as u32) < 0x80,
    ensures
        utf8_len(s) == s.len(),
    decreases s.len(),
{
    if s.len() > 0 {
        let t = s.drop_last();
        assert forall|i: int| 0 <= i < t.len() implies (#[trigger] t[i] as u32) < 0x80 by {
            assert(t[i] == s[i]);
        }
        lemma_ascii_utf8_len(t);
        assert(s[s.len() - 1] == s.last());
    }
}

} // verus!
