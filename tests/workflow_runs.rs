use cuo::status::{IGNORED, WT_MODIFIED, WT_NEW};
use cuo::workflow::{Action, Event, Head, Phase, UpdateOutcome, Workflow, WorkflowError};

fn head() -> Head {
    Head { commit: [7u8; 20], branch: "refs/heads/main".to_string() }
}

/// Feeds the events in order and returns the actions asked for, the last one included.
fn drive(events: Vec<Event>) -> (Workflow, Vec<Action>) {
    let mut w = Workflow::new();
    let mut actions = vec![w.action()];
    for e in events {
        w.step(e);
        actions.push(w.action());
    }
    (w, actions)
}

fn is_mutation(a: &Action) -> bool {
    matches!(a, Action::UpdateLockfile | Action::StageAll | Action::CreateCommit { .. } | Action::Push)
}

#[test]
fn no_change_ends_without_commit() {
    let (w, actions) = drive(vec![
        Event::Opened(Some(head())),
        Event::Status(vec![WT_NEW]),
        Event::IgnoreChecked(false),
        Event::Updated(UpdateOutcome::Finished),
        Event::Status(vec![WT_NEW]),
    ]);
    assert_eq!(w.phase, Phase::Done);
    assert_eq!(
        actions,
        vec![
            Action::OpenRepository,
            Action::ReadStatus,
            Action::CheckLockfileIgnored,
            Action::UpdateLockfile,
            Action::ReadStatus,
            Action::Stop,
        ]
    );
}

#[test]
fn changed_lockfile_is_committed_once_and_pushed_once() {
    let (w, actions) = drive(vec![
        Event::Opened(Some(head())),
        Event::Status(vec![]),
        Event::IgnoreChecked(false),
        Event::Updated(UpdateOutcome::Finished),
        Event::Status(vec![WT_MODIFIED]),
        Event::Staged,
        Event::Committed,
        Event::Pushed,
    ]);
    assert_eq!(w.phase, Phase::Done);
    let commits: Vec<&Action> =
        actions.iter().filter(|a| matches!(a, Action::CreateCommit { .. })).collect();
    assert_eq!(commits, vec![&Action::CreateCommit { parent: [7u8; 20] }]);
    assert_eq!(actions.iter().filter(|a| **a == Action::Push).count(), 1);
    assert_eq!(actions[5], Action::StageAll);
    assert_eq!(actions[6], Action::CreateCommit { parent: [7u8; 20] });
    assert_eq!(actions[7], Action::Push);
    assert_eq!(w.head, Some(head()));
}

#[test]
fn uncommitted_edit_aborts_at_clean_check() {
    let (w, actions) = drive(vec![
        Event::Opened(Some(head())),
        Event::Status(vec![WT_MODIFIED]),
        Event::IgnoreChecked(false),
        Event::Updated(UpdateOutcome::Finished),
        Event::Status(vec![WT_MODIFIED]),
        Event::Staged,
        Event::Committed,
    ]);
    assert_eq!(w.phase, Phase::Failed(WorkflowError::NotClean));
    assert!(!actions.iter().any(is_mutation));
    assert!(w.is_finished());
}

#[test]
fn ignored_lockfile_ends_successfully_untouched() {
    let (w, actions) = drive(vec![
        Event::Opened(Some(head())),
        Event::Status(vec![IGNORED]),
        Event::IgnoreChecked(true),
    ]);
    assert_eq!(w.phase, Phase::Done);
    assert!(!actions.iter().any(is_mutation));
}

#[test]
fn failed_push_fails_only_its_root() {
    let (w, _) = drive(vec![
        Event::Opened(Some(head())),
        Event::Status(vec![]),
        Event::IgnoreChecked(false),
        Event::Updated(UpdateOutcome::Finished),
        Event::Status(vec![WT_MODIFIED]),
        Event::Staged,
        Event::Committed,
        Event::PushFailed,
    ]);
    assert_eq!(w.phase, Phase::Failed(WorkflowError::PushFailed));
    assert_eq!(w.action(), Action::Stop);
    let next = Workflow::new();
    assert_eq!(next.phase, Phase::Open);
    assert_eq!(next.action(), Action::OpenRepository);
}

#[test]
fn failed_refresh_still_checks_status() {
    let (w, actions) = drive(vec![
        Event::Opened(Some(head())),
        Event::Status(vec![]),
        Event::IgnoreChecked(false),
        Event::Updated(UpdateOutcome::EngineFailed),
    ]);
    assert!(w.update_engine_failed);
    assert_eq!(w.phase, Phase::ChangeDetection);
    assert_eq!(actions.last(), Some(&Action::ReadStatus));
}

#[test]
fn open_failure_ends_the_root() {
    let (w, actions) = drive(vec![Event::OpenFailed]);
    assert_eq!(w.phase, Phase::Failed(WorkflowError::OpenFailed));
    assert_eq!(actions, vec![Action::OpenRepository, Action::Stop]);
}

#[test]
fn missing_head_prevents_commit() {
    let (w, actions) = drive(vec![
        Event::Opened(None),
        Event::Status(vec![]),
        Event::IgnoreChecked(false),
        Event::Updated(UpdateOutcome::Finished),
        Event::Status(vec![WT_MODIFIED]),
        Event::Staged,
    ]);
    assert_eq!(w.phase, Phase::Failed(WorkflowError::NoHead));
    assert!(!actions.iter().any(|a| matches!(a, Action::CreateCommit { .. })));
}

#[test]
fn each_failure_report_names_its_stage() {
    let cases = vec![
        (vec![Event::Opened(Some(head())), Event::StatusFailed], WorkflowError::StatusFailed),
        (
            vec![Event::Opened(Some(head())), Event::Status(vec![]), Event::IgnoreCheckFailed],
            WorkflowError::IgnoreCheckFailed,
        ),
        (
            vec![
                Event::Opened(Some(head())),
                Event::Status(vec![]),
                Event::IgnoreChecked(false),
                Event::Updated(UpdateOutcome::Finished),
                Event::Status(vec![WT_MODIFIED]),
                Event::StageFailed,
            ],
            WorkflowError::StageFailed,
        ),
        (
            vec![
                Event::Opened(Some(head())),
                Event::Status(vec![]),
                Event::IgnoreChecked(false),
                Event::Updated(UpdateOutcome::Finished),
                Event::Status(vec![WT_MODIFIED]),
                Event::Staged,
                Event::CommitFailed,
            ],
            WorkflowError::CommitFailed,
        ),
        (vec![Event::Pushed], WorkflowError::OutOfOrder),
    ];
    for (events, err) in cases {
        let (w, _) = drive(events);
        assert_eq!(w.phase, Phase::Failed(err));
    }
}
