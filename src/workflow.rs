//! The per-repository update workflow as a state machine. The caller performs
//! each requested action against the repository and reports what happened;
//! the machine decides what comes next.

use vstd::prelude::*;
use crate::status::{is_clean, has_modification, tree_is_clean, shows_modification};

verus! {

/// The lockfile whose ignore status decides whether a project is a candidate.
pub const LOCKFILE: &'static str = "Cargo.lock";

/// The message of every commit the workflow asks for.
pub const COMMIT_MESSAGE: &'static str = "Update dependencies in Cargo.lock";

/// The remote every push goes to.
pub const REMOTE: &'static str = "origin";

/// A commit id as raw bytes.
pub type ObjectId = [u8; 20];

/// What HEAD pointed at when the repository was opened.
#[derive(Clone, Debug, PartialEq, Eq)]
pub struct Head {
    /// The commit HEAD resolved to.
    pub commit: ObjectId,
    /// The full name of the branch HEAD refers to, which is the one pushed.
    pub branch: String,
}

/// Why a repository's workflow stopped without finishing.
#[derive(Clone, Copy, Debug, PartialEq, Eq, Structural)]
pub enum WorkflowError {
    /// The path holds no readable repository, or HEAD could not be read.
    OpenFailed,
    /// The working-tree status could not be listed.
    StatusFailed,
    /// The working tree held tracked changes before anything was done.
    NotClean,
    /// The ignore rules could not be queried for the lockfile.
    IgnoreCheckFailed,
    /// Adding the changes to the index failed.
    StageFailed,
    /// There is no HEAD commit to build on.
    NoHead,
    /// Writing the tree or the commit failed.
    CommitFailed,
    /// The push was rejected, failed in transport, or found no credential.
    PushFailed,
    /// A report arrived that does not answer the pending action.
    OutOfOrder,
}

/// Where a repository's workflow stands.
#[derive(Clone, Copy, Debug, PartialEq, Eq, Structural)]
pub enum Phase {
    Open,
    CleanCheck,
    IgnoreCheck,
    Update,
    ChangeDetection,
    Stage,
    Commit,
    Push,
    Done,
    Failed(WorkflowError),
}

/// How the lockfile refresh ended. A failure is recorded and then passed over:
/// a partial refresh may still have changed the lockfile.
#[derive(Clone, Copy, Debug, PartialEq, Eq, Structural)]
pub enum UpdateOutcome {
    Finished,
    EngineFailed,
}

/// What the caller reports after performing the pending action.
#[derive(Clone, Debug, PartialEq, Eq)]
pub enum Event {
    /// The repository opened; HEAD as it stood then, if it resolves to a commit.
    Opened(Option<Head>),
    OpenFailed,
    /// The status flags of every listed path; untracked and ignored paths may be listed.
    Status(Vec<u32>),
    StatusFailed,
    /// Whether the ignore rules match the lockfile.
    IgnoreChecked(bool),
    IgnoreCheckFailed,
    Updated(UpdateOutcome),
    Staged,
    StageFailed,
    Committed,
    CommitFailed,
    Pushed,
    PushFailed,
}

/// What the caller is asked to do next.
#[derive(Clone, Copy, Debug, PartialEq, Eq)]
pub enum Action {
    /// Open the repository and resolve HEAD.
    OpenRepository,
    /// List the working-tree status.
    ReadStatus,
    /// Ask the ignore rules about the lockfile.
    CheckLockfileIgnored,
    /// Run the lockfile refresh.
    UpdateLockfile,
    /// Add every path, ignore rules respected, to the index.
    StageAll,
    /// Write the index as a tree and commit it on HEAD with the single given parent.
    CreateCommit { parent: ObjectId },
    /// Push the branch of HEAD to the remote.
    Push,
    /// Nothing more: the workflow has ended.
    Stop,
}

/// The state of one repository's workflow.
#[derive(Clone, Debug, PartialEq, Eq)]
pub struct Workflow {
    pub phase: Phase,
    /// HEAD as read when the repository was opened, before any change.
    pub head: Option<Head>,
    /// Whether the lockfile refresh reported a failure.
    pub update_engine_failed: bool,
}

pub open spec fn initial() -> Workflow {
    Workflow { phase: Phase::Open, head: None, update_engine_failed: false }
}

pub open spec fn is_terminal(p: Phase) -> bool {
    p is Done || p is Failed
}

pub open spec fn with_phase(w: Workflow, p: Phase) -> Workflow {
    Workflow { phase: p, head: w.head, update_engine_failed: w.update_engine_failed }
}

/// The state after the caller reports `e` in state `w`.
pub open spec fn next_state(w: Workflow, e: Event) -> Workflow {
    match w.phase {
        Phase::Open => match e {
            Event::Opened(h) => Workflow {
                phase: Phase::CleanCheck,
                head: h,
                update_engine_failed: w.update_engine_failed,
            },
            Event::OpenFailed => with_phase(w, Phase::Failed(WorkflowError::OpenFailed)),
            _ => with_phase(w, Phase::Failed(WorkflowError::OutOfOrder)),
        },
        Phase::CleanCheck => match e {
            Event::Status(s) => if tree_is_clean(s@) {
                with_phase(w, Phase::IgnoreCheck)
            } else {
                with_phase(w, Phase::Failed(WorkflowError::NotClean))
            },
            Event::StatusFailed => with_phase(w, Phase::Failed(WorkflowError::StatusFailed)),
            _ => with_phase(w, Phase::Failed(WorkflowError::OutOfOrder)),
        },
        Phase::IgnoreCheck => match e {
            Event::IgnoreChecked(ignored) => if ignored {
                with_phase(w, Phase::Done)
            } else {
                with_phase(w, Phase::Update)
            },
            Event::IgnoreCheckFailed => with_phase(
                w,
                Phase::Failed(WorkflowError::IgnoreCheckFailed),
            ),
            _ => with_phase(w, Phase::Failed(WorkflowError::OutOfOrder)),
        },
        Phase::Update => match e {
            Event::Updated(o) => Workflow {
                phase: Phase::ChangeDetection,
                head: w.head,
                update_engine_failed: o is EngineFailed,
            },
            _ => with_phase(w, Phase::Failed(WorkflowError::OutOfOrder)),
        },
        Phase::ChangeDetection => match e {
            Event::Status(s) => if shows_modification(s@) {
                with_phase(w, Phase::Stage)
            } else {
                with_phase(w, Phase::Done)
            },
            Event::StatusFailed => with_phase(w, Phase::Failed(WorkflowError::StatusFailed)),
            _ => with_phase(w, Phase::Failed(WorkflowError::OutOfOrder)),
        },
        Phase::Stage => match e {
            Event::Staged => if w.head is Some {
                with_phase(w, Phase::Commit)
            } else {
                with_phase(w, Phase::Failed(WorkflowError::NoHead))
            },
            Event::StageFailed => with_phase(w, Phase::Failed(WorkflowError::StageFailed)),
            _ => with_phase(w, Phase::Failed(WorkflowError::OutOfOrder)),
        },
        Phase::Commit => match e {
            Event::Committed => with_phase(w, Phase::Push),
            Event::CommitFailed => with_phase(w, Phase::Failed(WorkflowError::CommitFailed)),
            _ => with_phase(w, Phase::Failed(WorkflowError::OutOfOrder)),
        },
        Phase::Push => match e {
            Event::Pushed => with_phase(w, Phase::Done),
            Event::PushFailed => with_phase(w, Phase::Failed(WorkflowError::PushFailed)),
            _ => with_phase(w, Phase::Failed(WorkflowError::OutOfOrder)),
        },
        Phase::Done => w,
        Phase::Failed(_) => w,
    }
}

/// The action the workflow asks for in state `w`.
pub open spec fn action_of(w: Workflow) -> Action {
    match w.phase {
        Phase::Open => Action::OpenRepository,
        Phase::CleanCheck => Action::ReadStatus,
        Phase::IgnoreCheck => Action::CheckLockfileIgnored,
        Phase::Update => Action::UpdateLockfile,
        Phase::ChangeDetection => Action::ReadStatus,
        Phase::Stage => Action::StageAll,
        Phase::Commit => match w.head {
            Some(h) => Action::CreateCommit { parent: h.commit },
            None => Action::Stop,
        },
        Phase::Push => Action::Push,
        Phase::Done => Action::Stop,
        Phase::Failed(_) => Action::Stop,
    }
}

impl Workflow {
    /// A workflow about to open its repository.
    pub fn new() -> (r: Workflow)
        ensures
            r == initial(),
    {
        Workflow { phase: Phase::Open, head: None, update_engine_failed: false }
    }

    /// The action the caller should perform next.
    pub fn action(&self) -> (r: Action)
        ensures
            r == action_of(*self),
    {
        match self.phase {
            Phase::Open => Action::OpenRepository,
            Phase::CleanCheck => Action::ReadStatus,
            Phase::IgnoreCheck => Action::CheckLockfileIgnored,
            Phase::Update => Action::UpdateLockfile,
            Phase::ChangeDetection => Action::ReadStatus,
            Phase::Stage => Action::StageAll,
            Phase::Commit => match &self.head {
                Some(h) => Action::CreateCommit { parent: h.commit },
                None => Action::Stop,
            },
            Phase::Push => Action::Push,
            Phase::Done => Action::Stop,
            Phase::Failed(_) => Action::Stop,
        }
    }

    /// Whether the workflow has ended, successfully or not.
    pub fn is_finished(&self) -> (r: bool)
        ensures
            r == is_terminal(self.phase),
    {
        match self.phase {
            Phase::Done => true,
            Phase::Failed(_) => true,
            _ => false,
        }
    }

    /// Takes the caller's report of the pending action and moves on.
    pub fn step(&mut self, event: Event)
        ensures
            *final(self) == next_state(*old(self), event),
    {
        let fail_out_of_order = Phase::Failed(WorkflowError::OutOfOrder);
        match self.phase {
            Phase::Open => match event {
                Event::Opened(h) => {
                    self.phase = Phase::CleanCheck;
                    self.head = h;
                },
                Event::OpenFailed => self.phase = Phase::Failed(WorkflowError::OpenFailed),
                _ => self.phase = fail_out_of_order,
            },
            Phase::CleanCheck => match event {
                Event::Status(s) => {
                    if is_clean(&s) {
                        self.phase = Phase::IgnoreCheck;
                    } else {
                        self.phase = Phase::Failed(WorkflowError::NotClean);
                    }
                },
                Event::StatusFailed => self.phase = Phase::Failed(WorkflowError::StatusFailed),
                _ => self.phase = fail_out_of_order,
            },
            Phase::IgnoreCheck => match event {
                Event::IgnoreChecked(ignored) => {
                    if ignored {
                        self.phase = Phase::Done;
                    } else {
                        self.phase = Phase::Update;
                    }
                },
                Event::IgnoreCheckFailed => self.phase = Phase::Failed(
                    WorkflowError::IgnoreCheckFailed,
                ),
                _ => self.phase = fail_out_of_order,
            },
            Phase::Update => match event {
                Event::Updated(o) => {
                    self.phase = Phase::ChangeDetection;
                    self.update_engine_failed = match o {
                        UpdateOutcome::EngineFailed => true,
                        UpdateOutcome::Finished => false,
                    };
                },
                _ => self.phase = fail_out_of_order,
            },
            Phase::ChangeDetection => match event {
                Event::Status(s) => {
                    if has_modification(&s) {
                        self.phase = Phase::Stage;
                    } else {
                        self.phase = Phase::Done;
                    }
                },
                Event::StatusFailed => self.phase = Phase::Failed(WorkflowError::StatusFailed),
                _ => self.phase = fail_out_of_order,
            },
            Phase::Stage => match event {
                Event::Staged => {
                    if self.head.is_some() {
                        self.phase = Phase::Commit;
                    } else {
                        self.phase = Phase::Failed(WorkflowError::NoHead);
                    }
                },
                Event::StageFailed => self.phase = Phase::Failed(WorkflowError::StageFailed),
                _ => self.phase = fail_out_of_order,
            },
            Phase::Commit => match event {
                Event::Committed => self.phase = Phase::Push,
                Event::CommitFailed => self.phase = Phase::Failed(WorkflowError::CommitFailed),
                _ => self.phase = fail_out_of_order,
            },
            Phase::Push => match event {
                Event::Pushed => self.phase = Phase::Done,
                Event::PushFailed => self.phase = Phase::Failed(WorkflowError::PushFailed),
                _ => self.phase = fail_out_of_order,
            },
            Phase::Done => {},
            Phase::Failed(_) => {},
        }
    }
}

/// The state after reporting `events` in order, starting from `w`.
pub open spec fn run(w: Workflow, events: Seq<Event>) -> Workflow
    decreases events.len(),
{
    if events.len() == 0 {
        w
    } else {
        run(next_state(w, events[0]), events.drop_first())
    }
}

/// The actions asked for along the way, starting from `w` and reporting
/// `events` in order: one before each report, and one after the last.
pub open spec fn actions(w: Workflow, events: Seq<Event>) -> Seq<Action>
    decreases events.len(),
{
    if events.len() == 0 {
        seq![action_of(w)]
    } else {
        seq![action_of(w)] + actions(next_state(w, events[0]), events.drop_first())
    }
}

/// An action that changes the repository or its remote.
pub open spec fn is_mutation(a: Action) -> bool {
    a is UpdateLockfile || a is StageAll || a is CreateCommit || a is Push
}

/// The head carried by an `Opened` report.
pub open spec fn opened_head(e: Event) -> Option<Head> {
    match e {
        Event::Opened(h) => h,
        _ => None,
    }
}

/// An ended workflow stays as it is and asks for nothing more.
pub proof fn lemma_terminal_is_stable(w: Workflow, events: Seq<Event>)
    requires
        is_terminal(w.phase),
    ensures
        run(w, events) == w,
        actions(w, events).len() == events.len() + 1,
        forall|i: int| 0 <= i < actions(w, events).len() ==> #[trigger] actions(w, events)[i] == Action::Stop,
    decreases events.len(),
{
    if events.len() > 0 {
        lemma_terminal_is_stable(w, events.drop_first());
        let tail = actions(w, events.drop_first());
        assert(actions(w, events) == seq![Action::Stop] + tail);
        assert forall|i: int| 0 <= i < actions(w, events).len() implies #[trigger] actions(w, events)[i] == Action::Stop by {
            if i > 0 {
                assert(actions(w, events)[i] == tail[i - 1]);
            }
        }
    }
}

/// A tree found dirty at the clean check is never touched: whatever is
/// reported afterwards, the workflow ends as not clean and never asks to
/// refresh, stage, commit or push.
pub proof fn dirty_tree_is_never_touched(opened: Event, statuses: Vec<u32>, rest: Seq<Event>)
    requires
        opened is Opened,
        !tree_is_clean(statuses@),
    ensures
        ({
            let events = seq![opened, Event::Status(statuses)] + rest;
            &&& run(initial(), events).phase == Phase::Failed(WorkflowError::NotClean)
            &&& forall|i: int| 0 <= i < actions(initial(), events).len()
                ==> !is_mutation(#[trigger] actions(initial(), events)[i])
        }),
{
    let events = seq![opened, Event::Status(statuses)] + rest;
    let w1 = next_state(initial(), opened);
    let w2 = next_state(w1, Event::Status(statuses));
    assert(events.drop_first() == seq![Event::Status(statuses)] + rest);
    assert(events.drop_first().drop_first() == rest);
    let e1 = events.drop_first();
    assert(w1.phase == Phase::CleanCheck);
    assert(w2.phase == Phase::Failed(WorkflowError::NotClean));
    lemma_terminal_is_stable(w2, rest);
    let a = actions(initial(), events);
    assert(a == seq![action_of(initial())] + actions(w1, e1));
    assert(actions(w1, e1) == seq![action_of(w1)] + actions(w2, rest));
    assert(run(initial(), events) == run(w1, e1));
    assert(run(w1, e1) == run(w2, rest));
    assert(a == seq![Action::OpenRepository] + (seq![Action::ReadStatus] + actions(w2, rest)));
    assert forall|i: int| 0 <= i < a.len() implies !is_mutation(#[trigger] a[i]) by {
        if i >= 2 {
            assert(a[i] == actions(w2, rest)[i - 2]);
        }
    }
}

/// A project whose lockfile is ignored is left alone: once the ignore check
/// says so, the workflow ends successfully, and it never asks to refresh,
/// stage, commit or push.
pub proof fn ignored_lockfile_is_left_alone(opened: Event, statuses: Vec<u32>, rest: Seq<Event>)
    requires
        opened is Opened,
        tree_is_clean(statuses@),
    ensures
        ({
            let events = seq![opened, Event::Status(statuses), Event::IgnoreChecked(true)] + rest;
            &&& run(initial(), events).phase == Phase::Done
            &&& forall|i: int| 0 <= i < actions(initial(), events).len()
                ==> !is_mutation(#[trigger] actions(initial(), events)[i])
        }),
{
    let events = seq![opened, Event::Status(statuses), Event::IgnoreChecked(true)] + rest;
    let w1 = next_state(initial(), opened);
    let w2 = next_state(w1, Event::Status(statuses));
    let w3 = next_state(w2, Event::IgnoreChecked(true));
    assert(events.drop_first() == seq![Event::Status(statuses), Event::IgnoreChecked(true)] + rest);
    assert(events.drop_first().drop_first() == seq![Event::IgnoreChecked(true)] + rest);
    assert(events.drop_first().drop_first().drop_first() == rest);
    let e1 = events.drop_first();
    let e2 = e1.drop_first();
    assert(w1.phase == Phase::CleanCheck);
    assert(w2.phase == Phase::IgnoreCheck);
    assert(w3.phase == Phase::Done);
    lemma_terminal_is_stable(w3, rest);
    let a = actions(initial(), events);
    assert(a == seq![action_of(initial())] + actions(w1, e1));
    assert(actions(w1, e1) == seq![action_of(w1)] + actions(w2, e2));
    assert(actions(w2, e2) == seq![action_of(w2)] + actions(w3, rest));
    assert(run(initial(), events) == run(w1, e1));
    assert(run(w1, e1) == run(w2, e2));
    assert(run(w2, e2) == run(w3, rest));
    assert(a == seq![Action::OpenRepository] + (seq![Action::ReadStatus] + (
    seq![Action::CheckLockfileIgnored] + actions(w3, rest))));
    assert forall|i: int| 0 <= i < a.len() implies !is_mutation(#[trigger] a[i]) by {
        if i >= 3 {
            assert(a[i] == actions(w3, rest)[i - 3]);
        }
    }
}

proof fn lemma_commit_follows_stage(w: Workflow, events: Seq<Event>)
    requires
        !(w.phase is Open),
        !(w.phase is Commit),
    ensures
        actions(w, events).len() == events.len() + 1,
        forall|i: int|
            0 <= i < actions(w, events).len() && (#[trigger] actions(w, events)[i] is CreateCommit)
                ==> {
                &&& i >= 1
                &&& actions(w, events)[i - 1] == Action::StageAll
                &&& w.head is Some
                &&& actions(w, events)[i]->CreateCommit_parent == w.head->Some_0.commit
            },
    decreases events.len(),
{
    let a = actions(w, events);
    if events.len() > 0 {
        let w1 = next_state(w, events[0]);
        let rest = events.drop_first();
        assert(w1.head == w.head);
        if w1.phase is Commit {
            assert(w.phase is Stage);
            let t = actions(w1, rest);
            if rest.len() > 0 {
                let w2 = next_state(w1, rest[0]);
                lemma_commit_follows_stage(w2, rest.drop_first());
                let t2 = actions(w2, rest.drop_first());
                assert(t == seq![action_of(w1)] + t2);
                assert(a == seq![Action::StageAll] + t);
                assert forall|i: int|
                    0 <= i < a.len() && (#[trigger] a[i] is CreateCommit) implies {
                    &&& i >= 1
                    &&& a[i - 1] == Action::StageAll
                    &&& w.head is Some
                    &&& a[i]->CreateCommit_parent == w.head->Some_0.commit
                } by {
                    if i >= 2 {
                        assert(a[i] == t2[i - 2]);
                        assert(t2[i - 2] is CreateCommit);
                        assert(a[i - 1] == t2[i - 3]);
                    }
                }
            } else {
                assert(a == seq![Action::StageAll, action_of(w1)]);
            }
        } else {
            lemma_commit_follows_stage(w1, rest);
            let t = actions(w1, rest);
            assert(a == seq![action_of(w)] + t);
            assert forall|i: int|
                0 <= i < a.len() && (#[trigger] a[i] is CreateCommit) implies {
                &&& i >= 1
                &&& a[i - 1] == Action::StageAll
                &&& w.head is Some
                &&& a[i]->CreateCommit_parent == w.head->Some_0.commit
            } by {
                if i >= 1 {
                    assert(a[i] == t[i - 1]);
                    assert(t[i - 1] is CreateCommit);
                    assert(a[i - 1] == t[i - 2]);
                }
            }
        }
    }
}

/// Every commit the workflow asks for, whatever was reported, comes right
/// after staging everything, and has exactly one parent: the commit HEAD
/// resolved to when the repository was opened, before the refresh.
pub proof fn commit_builds_on_opened_head(events: Seq<Event>)
    ensures
        forall|i: int|
            0 <= i < actions(initial(), events).len() && (#[trigger] actions(
                initial(),
                events,
            )[i] is CreateCommit) ==> {
                &&& i >= 2
                &&& actions(initial(), events)[i - 1] == Action::StageAll
                &&& opened_head(events[0]) is Some
                &&& actions(initial(), events)[i]->CreateCommit_parent == opened_head(
                    events[0],
                )->Some_0.commit
            },
{
    let a = actions(initial(), events);
    if events.len() > 0 {
        let w1 = next_state(initial(), events[0]);
        let rest = events.drop_first();
        lemma_commit_follows_stage(w1, rest);
        let t = actions(w1, rest);
        assert(a == seq![Action::OpenRepository] + t);
        assert(w1.head == opened_head(events[0]));
        assert forall|i: int|
            0 <= i < a.len() && (#[trigger] a[i] is CreateCommit) implies {
            &&& i >= 2
            &&& a[i - 1] == Action::StageAll
            &&& opened_head(events[0]) is Some
            &&& a[i]->CreateCommit_parent == opened_head(events[0])->Some_0.commit
        } by {
            if i >= 1 {
                assert(a[i] == t[i - 1]);
                assert(t[i - 1] is CreateCommit);
                assert(a[i - 1] == t[i - 2]);
            }
        }
    } else {
        assert(a == seq![Action::OpenRepository]);
    }
}

} // verus!
