use tuxbox::error::TuxBoxError;
use tuxbox::update::{
    begin_update, outcome_result, update_step, UpdateAction, UpdateEvent, UpdateOutcome,
    UpdatePhase,
};

#[test]
fn update_of_unknown_tool_fails() {
    let err = begin_update("ghost", false).unwrap_err();
    match err {
        TuxBoxError::ToolNotFound(n) => assert_eq!(n, "ghost"),
        other => panic!("unexpected error: {:?}", other),
    }
}

#[test]
fn dirty_tree_skips_without_mutation() {
    // A repository with uncommitted tracked-file changes is never
    // fast-forwarded or checked out: the first event ends the attempt,
    // with no mutating action, and the command still exits successfully.
    let (phase, action) = begin_update("t", true).unwrap();
    assert_eq!(phase, UpdatePhase::CheckDirty);
    assert_eq!(action, UpdateAction::QueryDirty);
    let (phase, action) = update_step(phase, UpdateEvent::DirtyChecked { dirty: true });
    assert_eq!(phase, UpdatePhase::Finished(UpdateOutcome::SkippedDirty));
    assert_eq!(action, UpdateAction::Report);
    assert!(outcome_result("t", UpdateOutcome::SkippedDirty).is_ok());
}

#[test]
fn clean_and_equal_heads_report_up_to_date() {
    let (phase, _) = update_step(UpdatePhase::CheckDirty, UpdateEvent::DirtyChecked { dirty: false });
    assert_eq!(phase, UpdatePhase::Fetch);
    let (phase, _) = update_step(phase, UpdateEvent::FetchDone { ok: true });
    assert_eq!(phase, UpdatePhase::CompareCommits);
    let (phase, action) = update_step(phase, UpdateEvent::Compared { same: true, behind: 0 });
    assert_eq!(phase, UpdatePhase::Finished(UpdateOutcome::UpToDate));
    assert_eq!(action, UpdateAction::Report);
}

#[test]
fn local_ahead_reports_up_to_date() {
    let (phase, action) = update_step(
        UpdatePhase::CompareCommits,
        UpdateEvent::Compared { same: false, behind: 0 },
    );
    assert_eq!(phase, UpdatePhase::Finished(UpdateOutcome::UpToDate));
    assert_eq!(action, UpdateAction::Report);
}

#[test]
fn successful_update_invalidates_the_record() {
    // After a successful fast-forward the machine reports the update and
    // orders the install record invalidated, forcing re-provisioning.
    let (phase, action) = update_step(
        UpdatePhase::CompareCommits,
        UpdateEvent::Compared { same: false, behind: 2 },
    );
    assert_eq!(phase, UpdatePhase::FastForward { behind: 2 });
    assert_eq!(action, UpdateAction::DoFastForward);
    let (phase, action) = update_step(phase, UpdateEvent::FastForwarded { ok: true });
    assert_eq!(phase, UpdatePhase::Finished(UpdateOutcome::Updated { behind: 2 }));
    assert_eq!(action, UpdateAction::InvalidateRecord);
    assert!(outcome_result("t", UpdateOutcome::Updated { behind: 2 }).is_ok());
}

#[test]
fn diverged_history_is_a_hard_failure() {
    let (phase, action) = update_step(
        UpdatePhase::FastForward { behind: 1 },
        UpdateEvent::FastForwarded { ok: false },
    );
    assert_eq!(phase, UpdatePhase::Finished(UpdateOutcome::ConflictFailed));
    assert_eq!(action, UpdateAction::Report);
    let err = outcome_result("sshmenuc", UpdateOutcome::ConflictFailed).unwrap_err();
    match err {
        TuxBoxError::GitError(m) => {
            assert_eq!(m, "Update failed for 'sshmenuc': merge conflict or non-fast-forward")
        }
        other => panic!("unexpected error: {:?}", other),
    }
}

#[test]
fn failed_fetch_is_an_error() {
    let (phase, _) = update_step(UpdatePhase::Fetch, UpdateEvent::FetchDone { ok: false });
    assert_eq!(phase, UpdatePhase::Finished(UpdateOutcome::FetchFailed));
    let err = outcome_result("t", UpdateOutcome::FetchFailed).unwrap_err();
    assert!(matches!(err, TuxBoxError::GitError(_)));
}
