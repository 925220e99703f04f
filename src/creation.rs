//! Creating a feature branch: the decisions of the lifecycle as a state
//! machine. The caller performs each action against the repository and the
//! history store, and hands back what happened.
use vstd::prelude::*;
use vstd::string::*;
use crate::history::{HistoryEntry, insert_by_time};
use crate::naming::{BranchGenerator, BranchPattern, generated_name};
use crate::text::{chars_of, concat_str, string_of, trim_chars, trim_ws};

verus! {

impl BranchCreateResult {
    /// A field-by-field copy.
    pub fn duplicate(&self) -> (r: BranchCreateResult)
        ensures
            r == *self,
    {
        BranchCreateResult {
            branch_name: self.branch_name.clone(),
            created: self.created,
            switched: self.switched,
            message: self.message.clone(),
        }
    }
}

/// A request to create a branch from a pattern.
#[derive(Clone, Debug)]
pub struct BranchCreateRequest {
    pub pattern: BranchPattern,
    /// The branch to start from; the current branch when `None`.
    pub base_branch: Option<String>,
    /// Whether to stay on the new branch.
    pub auto_switch: bool,
}

/// The outcome of a branch creation.
#[derive(Clone, Debug)]
pub struct BranchCreateResult {
    pub branch_name: String,
    pub created: bool,
    pub switched: bool,
    pub message: String,
}

pub struct CreateResultView {
    pub branch_name: Seq<char>,
    pub created: bool,
    pub switched: bool,
    pub message: Seq<char>,
}

impl View for BranchCreateResult {
    type V = CreateResultView;

    open spec fn view(&self) -> CreateResultView {
        CreateResultView {
            branch_name: self.branch_name@,
            created: self.created,
            switched: self.switched,
            message: self.message@,
        }
    }
}

/// Where a creation stands: the event it waits for.
#[derive(Clone, Copy, Debug, PartialEq, Eq, Structural)]
pub enum CreationStage {
    AwaitExists,
    AwaitCurrentBranch,
    AwaitCreated,
    AwaitSwitchBack,
    /// The branch was created; whether the caller was left on it.
    AwaitRecorded(bool),
    Done,
}

/// What the caller reports back.
#[derive(Clone, Debug)]
pub enum CreationEvent {
    /// Whether the branch already exists.
    Exists(bool),
    /// The name of the checked-out branch.
    CurrentBranch(String),
    /// The outcome of creating and checking out the branch: the engine's error
    /// on failure.
    Created(Option<String>),
    /// Whether checking the base branch out again succeeded.
    SwitchedBack(bool),
    /// The history entry was stored.
    Recorded,
}

/// What the caller is asked to do next.
#[derive(Clone, Debug)]
pub enum CreationAction {
    CheckExists(String),
    ReadCurrentBranch,
    /// Create the first branch from the second and check it out.
    CreateBranch(String, String),
    CheckoutBase(String),
    /// Store a history entry for the branch, with the pattern and the time now.
    RecordHistory(String),
    Finish(BranchCreateResult),
}

pub enum EventView {
    Exists(bool),
    CurrentBranch(Seq<char>),
    Created(Option<Seq<char>>),
    SwitchedBack(bool),
    Recorded,
}

pub enum ActionView {
    CheckExists(Seq<char>),
    ReadCurrentBranch,
    CreateBranch(Seq<char>, Seq<char>),
    CheckoutBase(Seq<char>),
    RecordHistory(Seq<char>),
    Finish(CreateResultView),
}

impl View for CreationEvent {
    type V = EventView;

    open spec fn view(&self) -> EventView {
        match self {
            CreationEvent::Exists(b) => EventView::Exists(*b),
            CreationEvent::CurrentBranch(s) => EventView::CurrentBranch(s@),
            CreationEvent::Created(e) => EventView::Created(
                match e {
                    Some(m) => Some(m@),
                    None => None,
                },
            ),
            CreationEvent::SwitchedBack(b) => EventView::SwitchedBack(*b),
            CreationEvent::Recorded => EventView::Recorded,
        }
    }
}

impl View for CreationAction {
    type V = ActionView;

    open spec fn view(&self) -> ActionView {
        match self {
            CreationAction::CheckExists(n) => ActionView::CheckExists(n@),
            CreationAction::ReadCurrentBranch => ActionView::ReadCurrentBranch,
            CreationAction::CreateBranch(n, b) => ActionView::CreateBranch(n@, b@),
            CreationAction::CheckoutBase(b) => ActionView::CheckoutBase(b@),
            CreationAction::RecordHistory(n) => ActionView::RecordHistory(n@),
            CreationAction::Finish(r) => ActionView::Finish(r@),
        }
    }
}

/// A branch creation in progress.
#[derive(Clone, Debug)]
pub struct BranchCreation {
    pub branch_name: String,
    pub requested_base: Option<String>,
    pub auto_switch: bool,
    /// The base branch, once resolved.
    pub base: String,
    pub stage: CreationStage,
    /// The result, once the creation is done.
    pub outcome: BranchCreateResult,
}

pub struct CreationView {
    pub branch_name: Seq<char>,
    pub requested_base: Option<Seq<char>>,
    pub auto_switch: bool,
    pub base: Seq<char>,
    pub stage: CreationStage,
    pub outcome: CreateResultView,
}

impl View for BranchCreation {
    type V = CreationView;

    open spec fn view(&self) -> CreationView {
        CreationView {
            branch_name: self.branch_name@,
            requested_base: match self.requested_base {
                Some(b) => Some(b@),
                None => None,
            },
            auto_switch: self.auto_switch,
            base: self.base@,
            stage: self.stage,
            outcome: self.outcome@,
        }
    }
}

pub open spec fn quoted(prefix: Seq<char>, name: Seq<char>, suffix: Seq<char>) -> Seq<char> {
    prefix + name + suffix
}

pub open spec fn exists_message(name: Seq<char>) -> Seq<char> {
    quoted("Branch '"@, name, "' already exists"@)
}

pub open spec fn create_failed_message(error: Seq<char>) -> Seq<char> {
    "Failed to create branch: "@ + error
}

pub open spec fn switched_message(name: Seq<char>) -> Seq<char> {
    quoted("Created and switched to branch '"@, name, "'"@)
}

pub open spec fn stayed_message(name: Seq<char>, base: Seq<char>) -> Seq<char> {
    quoted("Created branch '"@, name, "' (stayed on '"@) + base + "')"@
}

/// The action that a creation in state `s` waits on.
pub open spec fn pending_action(s: CreationView) -> ActionView {
    match s.stage {
        CreationStage::AwaitExists => ActionView::CheckExists(s.branch_name),
        CreationStage::AwaitCurrentBranch => ActionView::ReadCurrentBranch,
        CreationStage::AwaitCreated => ActionView::CreateBranch(s.branch_name, s.base),
        CreationStage::AwaitSwitchBack => ActionView::CheckoutBase(s.base),
        CreationStage::AwaitRecorded(_) => ActionView::RecordHistory(s.branch_name),
        CreationStage::Done => ActionView::Finish(s.outcome),
    }
}

/// The result reported once the branch was created and recorded.
pub open spec fn final_result(s: CreationView) -> CreateResultView {
    let switched = match s.stage {
        CreationStage::AwaitRecorded(sw) => sw,
        _ => true,
    };
    CreateResultView {
        branch_name: s.branch_name,
        created: true,
        switched,
        message: if switched {
            switched_message(s.branch_name)
        } else {
            stayed_message(s.branch_name, s.base)
        },
    }
}

/// One step of the lifecycle: an existing branch ends it with `created`
/// false; otherwise the base is the requested branch or else the current one;
/// a failed creation ends it with `created` false; a created branch is left
/// again for the base when the caller does not want to switch (staying on the
/// new branch if that fails), then recorded once, and the creation ends with
/// `created` true. An event that does not fit the stage changes nothing and
/// repeats the pending action.
pub open spec fn creation_step(s: CreationView, e: EventView) -> (CreationView, ActionView) {
    match (s.stage, e) {
        (CreationStage::AwaitExists, EventView::Exists(true)) => {
            let r = CreateResultView {
                branch_name: s.branch_name,
                created: false,
                switched: false,
                message: exists_message(s.branch_name),
            };
            (CreationView { stage: CreationStage::Done, outcome: r, ..s }, ActionView::Finish(r))
        },
        (CreationStage::AwaitExists, EventView::Exists(false)) => (
            CreationView { stage: CreationStage::AwaitCurrentBranch, ..s },
            ActionView::ReadCurrentBranch,
        ),
        (CreationStage::AwaitCurrentBranch, EventView::CurrentBranch(c)) => {
            let base = match s.requested_base {
                Some(b) => b,
                None => c,
            };
            (
                CreationView { stage: CreationStage::AwaitCreated, base, ..s },
                ActionView::CreateBranch(s.branch_name, base),
            )
        },
        (CreationStage::AwaitCreated, EventView::Created(Some(err))) => {
            let r = CreateResultView {
                branch_name: s.branch_name,
                created: false,
                switched: false,
                message: create_failed_message(err),
            };
            (CreationView { stage: CreationStage::Done, outcome: r, ..s }, ActionView::Finish(r))
        },
        (CreationStage::AwaitCreated, EventView::Created(None)) => if s.auto_switch {
            (
                CreationView { stage: CreationStage::AwaitRecorded(true), ..s },
                ActionView::RecordHistory(s.branch_name),
            )
        } else {
            (
                CreationView { stage: CreationStage::AwaitSwitchBack, ..s },
                ActionView::CheckoutBase(s.base),
            )
        },
        (CreationStage::AwaitSwitchBack, EventView::SwitchedBack(ok)) => (
            CreationView { stage: CreationStage::AwaitRecorded(!ok), ..s },
            ActionView::RecordHistory(s.branch_name),
        ),
        (CreationStage::AwaitRecorded(sw), EventView::Recorded) => (
            CreationView { stage: CreationStage::Done, outcome: final_result(s), ..s },
            ActionView::Finish(final_result(s)),
        ),
        _ => (s, pending_action(s)),
    }
}

/// The state after each event of `es` in turn.
pub open spec fn creation_state_after(s: CreationView, es: Seq<EventView>) -> CreationView
    decreases es.len(),
{
    if es.len() == 0 {
        s
    } else {
        creation_step(creation_state_after(s, es.drop_last()), es.last()).0
    }
}

/// The actions answering each event of `es` in turn.
pub open spec fn creation_actions(s: CreationView, es: Seq<EventView>) -> Seq<ActionView>
    decreases es.len(),
{
    if es.len() == 0 {
        seq![]
    } else {
        creation_actions(s, es.drop_last()).push(
            creation_step(creation_state_after(s, es.drop_last()), es.last()).1,
        )
    }
}

/// How many of `acts` ask for a history entry.
pub open spec fn record_count(acts: Seq<ActionView>) -> nat
    decreases acts.len(),
{
    if acts.len() == 0 {
        0
    } else {
        record_count(acts.drop_last()) + if acts.last() is RecordHistory {
            1nat
        } else {
            0nat
        }
    }
}

/// A creation of the branch `name` before its first event.
pub open spec fn fresh_creation(name: Seq<char>, requested_base: Option<Seq<char>>, auto_switch: bool) -> CreationView {
    CreationView {
        branch_name: name,
        requested_base,
        auto_switch,
        base: seq![],
        stage: CreationStage::AwaitExists,
        outcome: CreateResultView {
            branch_name: seq![],
            created: false,
            switched: false,
            message: seq![],
        },
    }
}

fn message_around(prefix: &str, name: &str, suffix: &str) -> (r: String)
    ensures
        r@ == quoted(prefix@, name@, suffix@),
{
    let a = concat_str(prefix, name);
    concat_str(a.as_str(), suffix)
}

fn copy_string(s: &String) -> (r: String)
    ensures
        r == *s,
{
    s.clone()
}

impl BranchCreation {
    /// Generates the branch name for `request`; on success the creation waits
    /// for the existence check that the returned action asks for. A generation
    /// failure is returned as it is.
    pub fn begin(generator: &BranchGenerator, request: &BranchCreateRequest) -> (r: Result<
        (BranchCreation, CreationAction),
        String,
    >)
        ensures
            match r {
                Ok((c, a)) => {
                    &&& generated_name(generator.config, request.pattern@) == Ok::<
                        Seq<char>,
                        Seq<char>,
                    >(c.branch_name@)
                    &&& c@ == fresh_creation(
                        c.branch_name@,
                        match request.base_branch {
                            Some(b) => Some(b@),
                            None => None,
                        },
                        request.auto_switch,
                    )
                    &&& a@ == pending_action(c@)
                },
                Err(e) => generated_name(generator.config, request.pattern@) == Err::<
                    Seq<char>,
                    Seq<char>,
                >(e@),
            },
    {
        let name = generator.generate_branch_name(&request.pattern)?;
        let requested_base = match &request.base_branch {
            Some(b) => Some(copy_string(b)),
            None => None,
        };
        let c = BranchCreation {
            branch_name: copy_string(&name),
            requested_base,
            auto_switch: request.auto_switch,
            base: String::new(),
            stage: CreationStage::AwaitExists,
            outcome: BranchCreateResult {
                branch_name: String::new(),
                created: false,
                switched: false,
                message: String::new(),
            },
        };
        Ok((c, CreationAction::CheckExists(name)))
    }

    /// The result once the branch was created and recorded.
    fn created_result(&self) -> (r: BranchCreateResult)
        ensures
            r@ == final_result(self@),
    {
        let switched = match self.stage {
            CreationStage::AwaitRecorded(sw) => sw,
            _ => true,
        };
        let message = if switched {
            message_around("Created and switched to branch '", self.branch_name.as_str(), "'")
        } else {
            let m = message_around(
                "Created branch '",
                self.branch_name.as_str(),
                "' (stayed on '",
            );
            let m2 = concat_str(m.as_str(), self.base.as_str());
            concat_str(m2.as_str(), "')")
        };
        BranchCreateResult {
            branch_name: copy_string(&self.branch_name),
            created: true,
            switched,
            message,
        }
    }

    /// The action this creation waits on.
    pub fn pending(&self) -> (r: CreationAction)
        ensures
            r@ == pending_action(self@),
    {
        match self.stage {
            CreationStage::AwaitExists => CreationAction::CheckExists(copy_string(&self.branch_name)),
            CreationStage::AwaitCurrentBranch => CreationAction::ReadCurrentBranch,
            CreationStage::AwaitCreated => CreationAction::CreateBranch(
                copy_string(&self.branch_name),
                copy_string(&self.base),
            ),
            CreationStage::AwaitSwitchBack => CreationAction::CheckoutBase(copy_string(&self.base)),
            CreationStage::AwaitRecorded(_) => CreationAction::RecordHistory(
                copy_string(&self.branch_name),
            ),
            CreationStage::Done => CreationAction::Finish(self.outcome.duplicate()),
        }
    }

    /// Takes in what happened and returns the next action.
    pub fn advance(&mut self, event: CreationEvent) -> (r: CreationAction)
        ensures
            (final(self)@, r@) == creation_step(old(self)@, event@),
    {
        let stage = self.stage;
        match (stage, event) {
            (CreationStage::AwaitExists, CreationEvent::Exists(true)) => {
                self.stage = CreationStage::Done;
                let name = copy_string(&self.branch_name);
                let message = message_around("Branch '", name.as_str(), "' already exists");
                self.outcome = BranchCreateResult {
                    branch_name: name,
                    created: false,
                    switched: false,
                    message,
                };
                CreationAction::Finish(self.outcome.duplicate())
            },
            (CreationStage::AwaitExists, CreationEvent::Exists(false)) => {
                self.stage = CreationStage::AwaitCurrentBranch;
                CreationAction::ReadCurrentBranch
            },
            (CreationStage::AwaitCurrentBranch, CreationEvent::CurrentBranch(c)) => {
                let base = match &self.requested_base {
                    Some(b) => copy_string(b),
                    None => c,
                };
                self.base = base;
                self.stage = CreationStage::AwaitCreated;
                CreationAction::CreateBranch(copy_string(&self.branch_name), copy_string(&self.base))
            },
            (CreationStage::AwaitCreated, CreationEvent::Created(Some(err))) => {
                self.stage = CreationStage::Done;
                let message = concat_str("Failed to create branch: ", err.as_str());
                self.outcome = BranchCreateResult {
                    branch_name: copy_string(&self.branch_name),
                    created: false,
                    switched: false,
                    message,
                };
                CreationAction::Finish(self.outcome.duplicate())
            },
            (CreationStage::AwaitCreated, CreationEvent::Created(None)) => {
                if self.auto_switch {
                    self.stage = CreationStage::AwaitRecorded(true);
                    CreationAction::RecordHistory(copy_string(&self.branch_name))
                } else {
                    self.stage = CreationStage::AwaitSwitchBack;
                    CreationAction::CheckoutBase(copy_string(&self.base))
                }
            },
            (CreationStage::AwaitSwitchBack, CreationEvent::SwitchedBack(ok)) => {
                self.stage = CreationStage::AwaitRecorded(!ok);
                CreationAction::RecordHistory(copy_string(&self.branch_name))
            },
            (CreationStage::AwaitRecorded(_), CreationEvent::Recorded) => {
                self.outcome = self.created_result();
                self.stage = CreationStage::Done;
                CreationAction::Finish(self.outcome.duplicate())
            },
            (_, _) => self.pending(),
        }
    }
}

/// The checked-out branch from the output of the tool's `--show-current`
/// query: the trimmed output, or an error when the query failed.
pub fn current_branch_from_output(success: bool, output: &str) -> (r: Result<String, String>)
    ensures
        match r {
            Ok(b) => success && b@ == trim_ws(output@),
            Err(e) => !success && e@ == "Failed to get current branch"@,
        },
{
    if !success {
        return Err(String::from_str("Failed to get current branch"));
    }
    let cs = chars_of(output);
    let t = trim_chars(cs.as_slice());
    Ok(string_of(t.as_slice()))
}

/// The events of a creation that finds no branch of the name and creates it.
pub open spec fn first_creation_events(current: Seq<char>, auto_switch: bool, switched_back: bool) -> Seq<EventView> {
    if auto_switch {
        seq![
            EventView::Exists(false),
            EventView::CurrentBranch(current),
            EventView::Created(None),
            EventView::Recorded,
        ]
    } else {
        seq![
            EventView::Exists(false),
            EventView::CurrentBranch(current),
            EventView::Created(None),
            EventView::SwitchedBack(switched_back),
            EventView::Recorded,
        ]
    }
}

/// The events of a creation that finds the branch already there.
pub open spec fn second_creation_events() -> Seq<EventView> {
    seq![EventView::Exists(true)]
}

/// The history once the caller has stored `e` for each history request of
/// `acts`, starting from `h`.
pub open spec fn history_after_actions(h: Seq<HistoryEntry>, acts: Seq<ActionView>, e: HistoryEntry) -> Seq<HistoryEntry>
    decreases acts.len(),
{
    if acts.len() == 0 {
        h
    } else {
        let prev = history_after_actions(h, acts.drop_last(), e);
        if acts.last() is RecordHistory {
            insert_by_time(prev, e)
        } else {
            prev
        }
    }
}

proof fn lemma_history_follows_records(h: Seq<HistoryEntry>, acts: Seq<ActionView>, e: HistoryEntry)
    ensures
        record_count(acts) == 0 ==> history_after_actions(h, acts, e) == h,
        record_count(acts) == 1 ==> history_after_actions(h, acts, e) == insert_by_time(h, e),
    decreases acts.len(),
{
    if acts.len() > 0 {
        lemma_history_follows_records(h, acts.drop_last(), e);
    }
}

proof fn lemma_insert_by_time_len(s: Seq<HistoryEntry>, e: HistoryEntry)
    ensures
        insert_by_time(s, e).len() == s.len() + 1,
    decreases s.len(),
{
    if s.len() > 0 && e.created_at < s[0].created_at {
        lemma_insert_by_time_len(s.drop_first(), e);
    }
}

/// Creating the same branch twice, seen from the history: whatever it held
/// before (`h`), it ends up holding exactly one more entry, the one stored
/// for the first creation; the second creation stores nothing.
pub proof fn lemma_second_creation_adds_no_history(
    name: Seq<char>,
    requested_base: Option<Seq<char>>,
    auto_switch: bool,
    current: Seq<char>,
    switched_back: bool,
    h: Seq<HistoryEntry>,
    first_entry: HistoryEntry,
    second_entry: HistoryEntry,
)
    ensures
        ({
            let s0 = fresh_creation(name, requested_base, auto_switch);
            let a1 = creation_actions(s0, first_creation_events(current, auto_switch, switched_back));
            let a2 = creation_actions(s0, second_creation_events());
            let after_first = history_after_actions(h, a1, first_entry);
            &&& after_first == insert_by_time(h, first_entry)
            &&& history_after_actions(after_first, a2, second_entry) == after_first
            &&& after_first.len() == h.len() + 1
        }),
{
    lemma_second_creation_finds_branch(name, requested_base, auto_switch, current, switched_back);
    let s0 = fresh_creation(name, requested_base, auto_switch);
    let a1 = creation_actions(s0, first_creation_events(current, auto_switch, switched_back));
    let a2 = creation_actions(s0, second_creation_events());
    lemma_history_follows_records(h, a1, first_entry);
    lemma_history_follows_records(insert_by_time(h, first_entry), a2, second_entry);
    lemma_insert_by_time_len(h, first_entry);
}

/// Creating the same branch twice: when the first creation goes through
/// (the branch did not exist and was created), it ends with `created` true
/// after exactly one history request; the second, which finds the branch,
/// ends with `created` false and the "already exists" message, and asks for
/// no history entry.
pub proof fn lemma_second_creation_finds_branch(
    name: Seq<char>,
    requested_base: Option<Seq<char>>,
    auto_switch: bool,
    current: Seq<char>,
    switched_back: bool,
)
    ensures
        ({
            let s0 = fresh_creation(name, requested_base, auto_switch);
            let first = first_creation_events(current, auto_switch, switched_back);
            let second = second_creation_events();
            let a1 = creation_actions(s0, first);
            let a2 = creation_actions(s0, second);
            &&& a1.last() matches ActionView::Finish(r1) && r1.created && r1.branch_name == name
            &&& a2.last() == ActionView::Finish(
                CreateResultView {
                    branch_name: name,
                    created: false,
                    switched: false,
                    message: exists_message(name),
                },
            )
            &&& record_count(a1) == 1
            &&& record_count(a2) == 0
        }),
{
    let s0 = fresh_creation(name, requested_base, auto_switch);
    let second: Seq<EventView> = seq![EventView::Exists(true)];
    assert(second.drop_last() =~= Seq::<EventView>::empty());
    assert(creation_state_after(s0, Seq::<EventView>::empty()) == s0);
    assert(creation_actions(s0, Seq::<EventView>::empty()) =~= Seq::<ActionView>::empty());
    let a2 = creation_actions(s0, second);
    assert(a2 =~= seq![creation_step(s0, EventView::Exists(true)).1]);
    assert(record_count(a2.drop_last()) == 0);
    let e1 = EventView::Exists(false);
    let e2 = EventView::CurrentBranch(current);
    let e3 = EventView::Created(None);
    let e4 = EventView::SwitchedBack(switched_back);
    let e5 = EventView::Recorded;
    let q1 = seq![e1];
    let q2 = seq![e1, e2];
    let q3 = seq![e1, e2, e3];
    assert(q1.drop_last() =~= Seq::<EventView>::empty());
    assert(q2.drop_last() =~= q1);
    assert(q3.drop_last() =~= q2);
    let s1 = creation_step(s0, e1).0;
    assert(creation_state_after(s0, q1) == s1);
    let s2 = creation_step(s1, e2).0;
    assert(creation_state_after(s0, q2) == s2);
    let s3 = creation_step(s2, e3).0;
    assert(creation_state_after(s0, q3) == s3);
    let c1 = creation_actions(s0, q1);
    assert(c1 =~= seq![ActionView::ReadCurrentBranch]);
    assert(record_count(c1.drop_last()) == 0);
    assert(record_count(c1) == 0);
    let c2 = creation_actions(s0, q2);
    assert(c2 =~= c1.push(creation_step(s1, e2).1));
    assert(c2.drop_last() =~= c1);
    assert(record_count(c2) == 0);
    let c3 = creation_actions(s0, q3);
    assert(c3 =~= c2.push(creation_step(s2, e3).1));
    assert(c3.drop_last() =~= c2);
    if auto_switch {
        let first = seq![e1, e2, e3, e5];
        assert(first.drop_last() =~= q3);
        assert(record_count(c3) == 1);
        let a1 = creation_actions(s0, first);
        assert(a1 =~= c3.push(creation_step(s3, e5).1));
        assert(a1.drop_last() =~= c3);
    } else {
        let q4 = seq![e1, e2, e3, e4];
        assert(q4.drop_last() =~= q3);
        assert(record_count(c3) == 0);
        let s4 = creation_step(s3, e4).0;
        assert(creation_state_after(s0, q4) == s4);
        let c4 = creation_actions(s0, q4);
        assert(c4 =~= c3.push(creation_step(s3, e4).1));
        assert(c4.drop_last() =~= c3);
        assert(record_count(c4) == 1);
        let first = seq![e1, e2, e3, e4, e5];
        assert(first.drop_last() =~= q4);
        let a1 = creation_actions(s0, first);
        assert(a1 =~= c4.push(creation_step(s4, e5).1));
        assert(a1.drop_last() =~= c4);
    }
}

} // verus!
