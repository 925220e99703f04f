//! Credential negotiation for clones: a bounded state machine that, for each
//! request of the remote, decides which credentials to offer, and learns which
//! of them could be built.
use vstd::prelude::*;
use vstd::string::*;
use crate::text::{chars_of, extend_chars, string_of};

verus! {

/// The most credential requests that are answered with candidates.
pub const MAX_AUTH_ATTEMPTS: u32 = 3;

/// The number of on-disk key pairs that are tried.
pub const KEY_PAIR_COUNT: usize = 3;

/// The kinds of credential that the remote accepts in one request.
#[derive(Clone, Copy, Debug, PartialEq, Eq, Structural)]
pub struct CredentialOffer {
    pub ssh_key: bool,
    pub user_pass_plaintext: bool,
}

/// One credential to offer, in the order of preference.
#[derive(Clone, Copy, Debug, PartialEq, Eq, Structural)]
pub enum AuthCandidate {
    /// The identity held by the running SSH agent.
    SshAgent,
    /// The key pair at this index of the fixed list (ed25519, RSA, ECDSA).
    KeyPair(usize),
    /// The username and password given with the request.
    Plaintext,
}

/// The state carried from one credential request to the next.
#[derive(Clone, Copy, Debug, PartialEq, Eq, Structural)]
pub struct AuthNegotiation {
    /// Requests seen so far.
    pub attempts: u32,
    /// What the request being answered accepts.
    pub current_offer: CredentialOffer,
    pub tried_agent: bool,
    pub tried_key_files: bool,
    pub tried_plaintext: bool,
    /// Whether a username and password were supplied with the clone.
    pub has_inline_credentials: bool,
}

pub open spec fn key_pair_candidates() -> Seq<AuthCandidate> {
    seq![AuthCandidate::KeyPair(0), AuthCandidate::KeyPair(1), AuthCandidate::KeyPair(2)]
}

/// The request being answered is within the attempt cap.
pub open spec fn within_cap(s: AuthNegotiation) -> bool {
    1 <= s.attempts <= MAX_AUTH_ATTEMPTS
}

/// The agent is tried on the first request only, when keys are accepted.
pub open spec fn agent_due(s: AuthNegotiation) -> bool {
    within_cap(s) && s.current_offer.ssh_key && s.attempts == 1 && !s.tried_agent
}

/// The key files are tried when keys are accepted and they were not tried yet.
pub open spec fn keys_due(s: AuthNegotiation) -> bool {
    within_cap(s) && s.current_offer.ssh_key && !s.tried_key_files
}

/// The password is tried when the remote accepts one and it was not tried yet.
pub open spec fn plaintext_due(s: AuthNegotiation) -> bool {
    within_cap(s) && s.current_offer.user_pass_plaintext && !s.tried_plaintext
}

/// The candidates for the request being answered, in order: the agent, then
/// the key pairs, then the inline password, each when it is due.
pub open spec fn plan_of(s: AuthNegotiation) -> Seq<AuthCandidate> {
    let c1: Seq<AuthCandidate> = if agent_due(s) {
        seq![AuthCandidate::SshAgent]
    } else {
        seq![]
    };
    let c2: Seq<AuthCandidate> = if keys_due(s) {
        key_pair_candidates()
    } else {
        seq![]
    };
    let c3: Seq<AuthCandidate> = if plaintext_due(s) && s.has_inline_credentials {
        seq![AuthCandidate::Plaintext]
    } else {
        seq![]
    };
    c1 + c2 + c3
}

/// The state once one more request has come, and its candidates (`None`: the
/// request is refused because the attempt cap is passed). Nothing is marked
/// tried yet.
pub open spec fn request_step(s: AuthNegotiation, offer: CredentialOffer) -> (
    AuthNegotiation,
    Option<Seq<AuthCandidate>>,
) {
    let n = if s.attempts < u32::MAX {
        (s.attempts + 1) as u32
    } else {
        s.attempts
    };
    let t = AuthNegotiation { attempts: n, current_offer: offer, ..s };
    if n > MAX_AUTH_ATTEMPTS {
        (t, None)
    } else {
        (t, Some(plan_of(t)))
    }
}

/// The position of a candidate's strategy in the order agent, key files,
/// password.
pub open spec fn strategy_rank(c: AuthCandidate) -> int {
    match c {
        AuthCandidate::SshAgent => 0,
        AuthCandidate::KeyPair(_) => 1,
        AuthCandidate::Plaintext => 2,
    }
}

/// The state once the caller has gone through the candidates: `built` is the
/// one it could build and offered, or `None` when none could be built. Every
/// due strategy up to and including the offered one counts as tried; when
/// nothing was built, every due strategy does.
pub open spec fn outcome_step(s: AuthNegotiation, built: Option<AuthCandidate>) -> AuthNegotiation {
    let r = match built {
        Some(c) => strategy_rank(c),
        None => 2,
    };
    AuthNegotiation {
        tried_agent: s.tried_agent || agent_due(s),
        tried_key_files: s.tried_key_files || (keys_due(s) && r >= 1),
        tried_plaintext: s.tried_plaintext || (plaintext_due(s) && r >= 2),
        ..s
    }
}

/// One credential request: what the remote accepted and what was built.
#[derive(Clone, Copy, Debug, PartialEq, Eq, Structural)]
pub struct AuthRound {
    pub offer: CredentialOffer,
    pub built: Option<AuthCandidate>,
}

/// The state after each round of `rounds` in turn.
pub open spec fn state_after_rounds(s: AuthNegotiation, rounds: Seq<AuthRound>) -> AuthNegotiation
    decreases rounds.len(),
{
    if rounds.len() == 0 {
        s
    } else {
        let prev = state_after_rounds(s, rounds.drop_last());
        outcome_step(request_step(prev, rounds.last().offer).0, rounds.last().built)
    }
}

/// The candidates handed out for the last round of `rounds`.
pub open spec fn round_answer(s: AuthNegotiation, rounds: Seq<AuthRound>) -> Option<Seq<AuthCandidate>>
    recommends
        rounds.len() > 0,
{
    request_step(state_after_rounds(s, rounds.drop_last()), rounds.last().offer).1
}

pub open spec fn fresh_negotiation(has_inline_credentials: bool) -> AuthNegotiation {
    AuthNegotiation {
        attempts: 0,
        current_offer: CredentialOffer { ssh_key: false, user_pass_plaintext: false },
        tried_agent: false,
        tried_key_files: false,
        tried_plaintext: false,
        has_inline_credentials,
    }
}

pub open spec fn candidates_view(r: Option<Vec<AuthCandidate>>) -> Option<Seq<AuthCandidate>> {
    match r {
        Some(v) => Some(v@),
        None => None,
    }
}

impl AuthNegotiation {
    /// A negotiation before the first request.
    pub fn new(has_inline_credentials: bool) -> (r: AuthNegotiation)
        ensures
            r == fresh_negotiation(has_inline_credentials),
    {
        AuthNegotiation {
            attempts: 0,
            current_offer: CredentialOffer { ssh_key: false, user_pass_plaintext: false },
            tried_agent: false,
            tried_key_files: false,
            tried_plaintext: false,
            has_inline_credentials,
        }
    }

    fn agent_is_due(&self) -> (r: bool)
        ensures
            r == agent_due(*self),
    {
        1 <= self.attempts && self.attempts <= MAX_AUTH_ATTEMPTS && self.current_offer.ssh_key
            && self.attempts == 1 && !self.tried_agent
    }

    fn keys_are_due(&self) -> (r: bool)
        ensures
            r == keys_due(*self),
    {
        1 <= self.attempts && self.attempts <= MAX_AUTH_ATTEMPTS && self.current_offer.ssh_key
            && !self.tried_key_files
    }

    fn plaintext_is_due(&self) -> (r: bool)
        ensures
            r == plaintext_due(*self),
    {
        1 <= self.attempts && self.attempts <= MAX_AUTH_ATTEMPTS
            && self.current_offer.user_pass_plaintext && !self.tried_plaintext
    }

    /// Answers one credential request: counts it, and returns the candidates to
    /// try in order, or `None` once more than three requests have come. The
    /// caller then reports with [`AuthNegotiation::record_outcome`] which
    /// candidate it could build.
    pub fn next_candidates(&mut self, offer: CredentialOffer) -> (r: Option<Vec<AuthCandidate>>)
        ensures
            (*final(self), candidates_view(r)) == request_step(*old(self), offer),
    {
        if self.attempts < u32::MAX {
            self.attempts = self.attempts + 1;
        }
        self.current_offer = offer;
        if self.attempts > MAX_AUTH_ATTEMPTS {
            return None;
        }
        let mut out: Vec<AuthCandidate> = Vec::new();
        if self.agent_is_due() {
            out.push(AuthCandidate::SshAgent);
        }
        let ghost after_agent = out@;
        if self.keys_are_due() {
            out.push(AuthCandidate::KeyPair(0));
            out.push(AuthCandidate::KeyPair(1));
            out.push(AuthCandidate::KeyPair(2));
            assert(out@ =~= after_agent + key_pair_candidates());
        } else {
            assert(out@ =~= after_agent + Seq::<AuthCandidate>::empty());
        }
        if self.plaintext_is_due() && self.has_inline_credentials {
            out.push(AuthCandidate::Plaintext);
        }
        assert(out@ =~= plan_of(*self));
        Some(out)
    }

    /// Takes in which candidate of the last answer could be built and was
    /// offered (`None`: none could). The strategies before it, and its own,
    /// count as tried; those after it stay available for the next request.
    pub fn record_outcome(&mut self, built: Option<AuthCandidate>)
        ensures
            *final(self) == outcome_step(*old(self), built),
            final(self).tried_key_files != old(self).tried_key_files ==> (built is None
                || built matches Some(AuthCandidate::KeyPair(_)) || built == Some(
                AuthCandidate::Plaintext,
            )),
            final(self).tried_plaintext != old(self).tried_plaintext ==> (built is None || built
                == Some(AuthCandidate::Plaintext)),
    {
        let rank: u8 = match built {
            Some(AuthCandidate::SshAgent) => 0,
            Some(AuthCandidate::KeyPair(_)) => 1,
            Some(AuthCandidate::Plaintext) => 2,
            None => 2,
        };
        let agent = self.agent_is_due();
        let keys = self.keys_are_due() && rank >= 1;
        let plain = self.plaintext_is_due() && rank >= 2;
        self.tried_agent = self.tried_agent || agent;
        self.tried_key_files = self.tried_key_files || keys;
        self.tried_plaintext = self.tried_plaintext || plain;
    }
}

/// The message with which a request past the attempt cap is refused.
pub fn attempts_exhausted_message() -> (r: String)
    ensures
        r@ == "Authentication failed after multiple attempts"@,
{
    String::from_str("Authentication failed after multiple attempts")
}

/// The message with which a request is refused when no candidate is left or
/// none of them could be built.
pub fn no_method_message() -> (r: String)
    ensures
        r@ == "No authentication method available"@,
{
    String::from_str("No authentication method available")
}

/// The SSH user: the one named in the URL, else `git`.
pub fn ssh_username(username_from_url: Option<&str>) -> (r: String)
    ensures
        r@ == match username_from_url {
            Some(u) => u@,
            None => "git"@,
        },
{
    match username_from_url {
        Some(u) => String::from_str(u),
        None => String::from_str("git"),
    }
}

/// The file name of the private key of the key pair at `index`.
pub open spec fn private_key_name(index: int) -> Seq<char> {
    if index == 0 {
        "id_ed25519"@
    } else if index == 1 {
        "id_rsa"@
    } else {
        "id_ecdsa"@
    }
}

/// The file names of the private and public keys of the pair at `index`.
pub fn key_pair_file_names(index: usize) -> (r: (&'static str, &'static str))
    requires
        index < KEY_PAIR_COUNT,
    ensures
        r.0@ == private_key_name(index as int),
        r.1@ == private_key_name(index as int) + ".pub"@,
{
    proof {
        reveal_strlit("id_ed25519");
        reveal_strlit("id_ed25519.pub");
        reveal_strlit("id_rsa");
        reveal_strlit("id_rsa.pub");
        reveal_strlit("id_ecdsa");
        reveal_strlit("id_ecdsa.pub");
        reveal_strlit(".pub");
    }
    let r = if index == 0 {
        ("id_ed25519", "id_ed25519.pub")
    } else if index == 1 {
        ("id_rsa", "id_rsa.pub")
    } else {
        ("id_ecdsa", "id_ecdsa.pub")
    };
    assert(r.1@ =~= private_key_name(index as int) + ".pub"@);
    r
}

/// `home/.ssh/name`.
pub open spec fn ssh_path(home: Seq<char>, name: Seq<char>) -> Seq<char> {
    home + "/.ssh/"@ + name
}

/// The paths of the private and public keys of the pair at `index` under the
/// home directory `home`.
pub fn key_pair_paths(home: &str, index: usize) -> (r: (String, String))
    requires
        index < KEY_PAIR_COUNT,
    ensures
        r.0@ == ssh_path(home@, private_key_name(index as int)),
        r.1@ == ssh_path(home@, private_key_name(index as int) + ".pub"@),
{
    let (private_name, public_name) = key_pair_file_names(index);
    let mut prefix = chars_of(home);
    let dir = chars_of("/.ssh/");
    extend_chars(&mut prefix, dir.as_slice());
    let mut private_path = prefix.clone();
    let mut public_path = prefix;
    let pn = chars_of(private_name);
    let qn = chars_of(public_name);
    extend_chars(&mut private_path, pn.as_slice());
    extend_chars(&mut public_path, qn.as_slice());
    (string_of(private_path.as_slice()), string_of(public_path.as_slice()))
}


proof fn lemma_attempts_counted(has_inline_credentials: bool, rounds: Seq<AuthRound>)
    ensures
        state_after_rounds(fresh_negotiation(has_inline_credentials), rounds).attempts == if rounds.len()
            <= u32::MAX {
            rounds.len()
        } else {
            u32::MAX as nat
        },
    decreases rounds.len(),
{
    if rounds.len() > 0 {
        lemma_attempts_counted(has_inline_credentials, rounds.drop_last());
    }
}

/// Past the attempt cap, every request is refused: whatever the remote offers
/// and whatever was built before, the fourth request and every later one get
/// no candidate, and the first three are always answered.
pub proof fn lemma_negotiation_is_bounded(has_inline_credentials: bool, rounds: Seq<AuthRound>)
    requires
        rounds.len() > 0,
    ensures
        round_answer(fresh_negotiation(has_inline_credentials), rounds) is None <==> rounds.len()
            > MAX_AUTH_ATTEMPTS,
{
    lemma_attempts_counted(has_inline_credentials, rounds.drop_last());
}

/// Whether the strategy at position `rank` is due in state `s`.
pub open spec fn due_at(s: AuthNegotiation, rank: int) -> bool {
    if rank == 0 {
        agent_due(s)
    } else if rank == 1 {
        keys_due(s)
    } else {
        plaintext_due(s)
    }
}

/// Whether the strategy at position `rank` is marked tried in `s`.
pub open spec fn tried_at(s: AuthNegotiation, rank: int) -> bool {
    if rank == 0 {
        s.tried_agent
    } else if rank == 1 {
        s.tried_key_files
    } else {
        s.tried_plaintext
    }
}

/// Every round reports either nothing built or one of the candidates it was
/// handed.
pub open spec fn rounds_reported_faithfully(s: AuthNegotiation, rounds: Seq<AuthRound>) -> bool {
    forall|i: int|
        0 <= i < rounds.len() ==> match #[trigger] rounds[i].built {
            None => true,
            Some(c) => round_answer(s, rounds.take(i + 1)) matches Some(plan) && plan.contains(c),
        }
}

/// How many rounds of `rounds` offered a credential of the strategy at `rank`.
pub open spec fn uses_of(rounds: Seq<AuthRound>, rank: int) -> nat
    decreases rounds.len(),
{
    if rounds.len() == 0 {
        0
    } else {
        uses_of(rounds.drop_last(), rank) + match rounds.last().built {
            Some(c) => if strategy_rank(c) == rank {
                1nat
            } else {
                0nat
            },
            None => 0nat,
        }
    }
}

proof fn lemma_plan_member_is_due(t: AuthNegotiation, c: AuthCandidate)
    requires
        plan_of(t).contains(c),
    ensures
        due_at(t, strategy_rank(c)),
{
    let c1: Seq<AuthCandidate> = if agent_due(t) {
        seq![AuthCandidate::SshAgent]
    } else {
        seq![]
    };
    let c2: Seq<AuthCandidate> = if keys_due(t) {
        key_pair_candidates()
    } else {
        seq![]
    };
    let c3: Seq<AuthCandidate> = if plaintext_due(t) && t.has_inline_credentials {
        seq![AuthCandidate::Plaintext]
    } else {
        seq![]
    };
    let p = plan_of(t);
    assert(p == c1 + c2 + c3);
    let i = choose|i: int| 0 <= i < p.len() && p[i] == c;
    if i < c1.len() {
        assert(p[i] == c1[i]);
    } else if i < c1.len() + c2.len() {
        assert(p[i] == c2[i - c1.len()]);
    } else {
        assert(p[i] == c3[i - c1.len() - c2.len()]);
    }
}

proof fn lemma_uses_bounded(has_inline_credentials: bool, rounds: Seq<AuthRound>, rank: int)
    requires
        0 <= rank <= 2,
        rounds_reported_faithfully(fresh_negotiation(has_inline_credentials), rounds),
    ensures
        uses_of(rounds, rank) <= 1,
        uses_of(rounds, rank) == 1 ==> tried_at(
            state_after_rounds(fresh_negotiation(has_inline_credentials), rounds),
            rank,
        ),
    decreases rounds.len(),
{
    if rounds.len() > 0 {
        let s0 = fresh_negotiation(has_inline_credentials);
        let d = rounds.drop_last();
        assert forall|i: int| 0 <= i < d.len() implies match #[trigger] d[i].built {
            None => true,
            Some(c) => round_answer(s0, d.take(i + 1)) matches Some(plan) && plan.contains(c),
        } by {
            assert(d[i] == rounds[i]);
            assert(d.take(i + 1) =~= rounds.take(i + 1));
        }
        lemma_uses_bounded(has_inline_credentials, d, rank);
        let prev = state_after_rounds(s0, d);
        let t = request_step(prev, rounds.last().offer).0;
        let last = rounds.len() - 1;
        assert(rounds.take(last + 1) =~= rounds);
        assert(rounds[last] == rounds.last());
        match rounds.last().built {
            Some(c) => {
                if strategy_rank(c) == rank {
                    let plan = round_answer(s0, rounds)->0;
                    assert(plan == plan_of(t));
                    lemma_plan_member_is_due(t, c);
                }
            },
            None => {},
        }
    }
}

/// No strategy is used twice: over any sequence of requests in which the
/// caller reports faithfully what it built, the agent, the key files and the
/// password each give at most one offered credential.
pub proof fn lemma_no_strategy_retried(
    has_inline_credentials: bool,
    rounds: Seq<AuthRound>,
    rank: int,
)
    requires
        0 <= rank <= 2,
        rounds_reported_faithfully(fresh_negotiation(has_inline_credentials), rounds),
    ensures
        uses_of(rounds, rank) <= 1,
{
    lemma_uses_bounded(has_inline_credentials, rounds, rank);
}

/// A strategy is marked tried only once a request reached it: by the time
/// the key files count as tried, a key pair or the password was built, or a
/// request found nothing to build; the password likewise.
pub proof fn lemma_tried_only_when_reached(s: AuthNegotiation, built: Option<AuthCandidate>)
    ensures
        outcome_step(s, built).tried_key_files && !s.tried_key_files ==> match built {
            Some(c) => strategy_rank(c) >= 1,
            None => true,
        },
        outcome_step(s, built).tried_plaintext && !s.tried_plaintext ==> match built {
            Some(c) => strategy_rank(c) == 2,
            None => true,
        },
        built == Some(AuthCandidate::SshAgent) ==> outcome_step(s, built).tried_key_files
            == s.tried_key_files && outcome_step(s, built).tried_plaintext == s.tried_plaintext,
{
}

} // verus!
