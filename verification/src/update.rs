//! The repository updater's state machine.
//!
//! One update attempt walks: check the working tree for uncommitted changes
//! to tracked files; fetch; compare the local head with the remote tracking
//! commit; fast-forward only.  A dirty tree skips the update without touching
//! anything; diverged history is a hard failure; a successful fast-forward
//! invalidates the tool's install record so the next run re-provisions.
//!
//! The machine itself decides; a driver performs each returned action against
//! the real repository and reports what happened as the next event.

use vstd::prelude::*;
use vstd::string::StringExecFns;

use crate::error::TuxBoxError;

verus! {

/// Terminal result of one update attempt.
#[derive(Debug, Clone, Copy, PartialEq, Eq, Structural)]
pub enum UpdateOutcome {
    /// Uncommitted tracked-file changes: nothing was touched.
    SkippedDirty,
    /// Local head already equals the remote commit, or is ahead of it.
    UpToDate,
    /// The branch pointer was fast-forwarded over `behind` commits.
    Updated { behind: usize },
    /// History diverged; a fast-forward was impossible and nothing merged.
    ConflictFailed,
    /// Fetching from the remote failed.
    FetchFailed,
}

/// Where the machine stands inside one update attempt.
#[derive(Debug, Clone, Copy, PartialEq, Eq, Structural)]
pub enum UpdatePhase {
    /// Waiting for the dirty check of the working tree.
    CheckDirty,
    /// Waiting for the fetch of all remote branches.
    Fetch,
    /// Waiting for the comparison of local and remote commits.
    CompareCommits,
    /// Waiting for the fast-forward attempt; `behind` commits to advance.
    FastForward { behind: usize },
    /// The attempt is over.
    Finished(UpdateOutcome),
}

/// What the driver must do next.
#[derive(Debug, Clone, Copy, PartialEq, Eq, Structural)]
pub enum UpdateAction {
    /// Ask whether any tracked file has uncommitted changes.
    QueryDirty,
    /// Fetch all remote branches.
    DoFetch,
    /// Compare local head against the remote tracking commit.
    QueryCommits,
    /// Move the branch pointer forward and force-checkout that commit.
    DoFastForward,
    /// Delete the tool's install record.
    InvalidateRecord,
    /// Nothing: the attempt is over or has just been reported.
    Report,
}

/// What the driver observed while performing the last action.
#[derive(Debug, Clone, Copy, PartialEq, Eq, Structural)]
pub enum UpdateEvent {
    /// Result of the dirty check.
    DirtyChecked { dirty: bool },
    /// Whether the fetch succeeded.
    FetchDone { ok: bool },
    /// `same` when local head equals the remote commit; otherwise how many
    /// commits local is behind (zero when it is ahead).
    Compared { same: bool, behind: usize },
    /// Whether the fast-forward and checkout succeeded.
    FastForwarded { ok: bool },
}

/// The event a phase is waiting for.
pub open spec fn phase_expects(phase: UpdatePhase, event: UpdateEvent) -> bool {
    match phase {
        UpdatePhase::CheckDirty => event is DirtyChecked,
        UpdatePhase::Fetch => event is FetchDone,
        UpdatePhase::CompareCommits => event is Compared,
        UpdatePhase::FastForward { .. } => event is FastForwarded,
        UpdatePhase::Finished(_) => false,
    }
}

/// The transition relation of the updater.
pub open spec fn spec_update_step(phase: UpdatePhase, event: UpdateEvent) -> (UpdatePhase,
    UpdateAction) {
    match (phase, event) {
        (UpdatePhase::CheckDirty, UpdateEvent::DirtyChecked { dirty }) => {
            if dirty {
                (UpdatePhase::Finished(UpdateOutcome::SkippedDirty), UpdateAction::Report)
            } else {
                (UpdatePhase::Fetch, UpdateAction::DoFetch)
            }
        },
        (UpdatePhase::Fetch, UpdateEvent::FetchDone { ok }) => {
            if ok {
                (UpdatePhase::CompareCommits, UpdateAction::QueryCommits)
            } else {
                (UpdatePhase::Finished(UpdateOutcome::FetchFailed), UpdateAction::Report)
            }
        },
        (UpdatePhase::CompareCommits, UpdateEvent::Compared { same, behind }) => {
            if same || behind == 0 {
                (UpdatePhase::Finished(UpdateOutcome::UpToDate), UpdateAction::Report)
            } else {
                (UpdatePhase::FastForward { behind }, UpdateAction::DoFastForward)
            }
        },
        (UpdatePhase::FastForward { behind }, UpdateEvent::FastForwarded { ok }) => {
            if ok {
                (
                    UpdatePhase::Finished(UpdateOutcome::Updated { behind }),
                    UpdateAction::InvalidateRecord,
                )
            } else {
                (UpdatePhase::Finished(UpdateOutcome::ConflictFailed), UpdateAction::Report)
            }
        },
        (UpdatePhase::Finished(o), _) => (UpdatePhase::Finished(o), UpdateAction::Report),
        _ => (phase, UpdateAction::Report),
    }
}

/// An action that mutates the repository clone or its install record.
pub open spec fn is_mutation(a: UpdateAction) -> bool {
    a is DoFastForward || a is InvalidateRecord
}

/// Begin an update attempt: the tool must be cloned; the first thing to
/// learn is whether the working tree is dirty.
pub fn begin_update(tool_name: &str, tool_cloned: bool) -> (r: Result<
    (UpdatePhase, UpdateAction),
    TuxBoxError,
>)
    ensures
        tool_cloned ==> r == Ok::<_, TuxBoxError>(
            (UpdatePhase::CheckDirty, UpdateAction::QueryDirty),
        ),
        !tool_cloned ==> (r matches Err(e) && e matches TuxBoxError::ToolNotFound(n) && n@
            == tool_name@),
{
    if tool_cloned {
        Ok((UpdatePhase::CheckDirty, UpdateAction::QueryDirty))
    } else {
        Err(TuxBoxError::ToolNotFound(tool_name.to_owned()))
    }
}

/// Advance the machine by one observed event.
pub fn update_step(phase: UpdatePhase, event: UpdateEvent) -> (r: (UpdatePhase, UpdateAction))
    requires
        phase_expects(phase, event),
    ensures
        r == spec_update_step(phase, event),
{
    match (phase, event) {
        (UpdatePhase::CheckDirty, UpdateEvent::DirtyChecked { dirty }) => {
            if dirty {
                (UpdatePhase::Finished(UpdateOutcome::SkippedDirty), UpdateAction::Report)
            } else {
                (UpdatePhase::Fetch, UpdateAction::DoFetch)
            }
        },
        (UpdatePhase::Fetch, UpdateEvent::FetchDone { ok }) => {
            if ok {
                (UpdatePhase::CompareCommits, UpdateAction::QueryCommits)
            } else {
                (UpdatePhase::Finished(UpdateOutcome::FetchFailed), UpdateAction::Report)
            }
        },
        (UpdatePhase::CompareCommits, UpdateEvent::Compared { same, behind }) => {
            if same || behind == 0 {
                (UpdatePhase::Finished(UpdateOutcome::UpToDate), UpdateAction::Report)
            } else {
                (UpdatePhase::FastForward { behind }, UpdateAction::DoFastForward)
            }
        },
        (UpdatePhase::FastForward { behind }, UpdateEvent::FastForwarded { ok }) => {
            if ok {
                (
                    UpdatePhase::Finished(UpdateOutcome::Updated { behind }),
                    UpdateAction::InvalidateRecord,
                )
            } else {
                (UpdatePhase::Finished(UpdateOutcome::ConflictFailed), UpdateAction::Report)
            }
        },
        _ => (phase, UpdateAction::Report),
    }
}

/// How the attempt's outcome is reported to the caller.  A dirty tree and an
/// up-to-date or updated clone end the command successfully; diverged
/// history and a failed fetch are errors.
pub fn outcome_result(tool_name: &str, outcome: UpdateOutcome) -> (r: Result<
    UpdateOutcome,
    TuxBoxError,
>)
    ensures
        (outcome is SkippedDirty || outcome is UpToDate || outcome matches
            UpdateOutcome::Updated { .. }) ==> r == Ok::<_, TuxBoxError>(outcome),
        outcome is ConflictFailed ==> (r matches Err(e) && e matches TuxBoxError::GitError(m)
            && m@ == "Update failed for '"@ + tool_name@
            + "': merge conflict or non-fast-forward"@),
        outcome is FetchFailed ==> (r matches Err(e) && e matches TuxBoxError::GitError(m) && m@
            == "Fetch failed for '"@ + tool_name@ + "'"@),
{
    match outcome {
        UpdateOutcome::SkippedDirty => Ok(outcome),
        UpdateOutcome::UpToDate => Ok(outcome),
        UpdateOutcome::Updated { .. } => Ok(outcome),
        UpdateOutcome::ConflictFailed => {
            let mut m = String::from_str("Update failed for '");
            m.append(tool_name);
            m.append("': merge conflict or non-fast-forward");
            Err(TuxBoxError::GitError(m))
        },
        UpdateOutcome::FetchFailed => {
            let mut m = String::from_str("Fetch failed for '");
            m.append(tool_name);
            m.append("'");
            Err(TuxBoxError::GitError(m))
        },
    }
}

/// The phase reached after `k` of the given events, starting a fresh attempt.
pub open spec fn run_phase(events: Seq<UpdateEvent>, k: int) -> UpdatePhase
    decreases k,
{
    if k <= 0 {
        UpdatePhase::CheckDirty
    } else {
        spec_update_step(run_phase(events, k - 1), events[k - 1]).0
    }
}

/// The action issued in reply to event `k`.
pub open spec fn run_action(events: Seq<UpdateEvent>, k: int) -> UpdateAction {
    spec_update_step(run_phase(events, k), events[k]).1
}

proof fn lemma_finished_stays(events: Seq<UpdateEvent>, o: UpdateOutcome, j: int, k: int)
    requires
        0 <= j <= k,
        run_phase(events, j) == UpdatePhase::Finished(o),
    ensures
        run_phase(events, k) == UpdatePhase::Finished(o),
    decreases k - j,
{
    if j < k {
        lemma_finished_stays(events, o, j + 1, k);
    }
}

/// A working tree with uncommitted tracked-file changes is never mutated:
/// when the dirty check comes back positive, the attempt finishes at once as
/// `SkippedDirty`, and no step of the whole run — whatever the driver
/// reports afterwards — issues a fast-forward, a checkout or a record
/// invalidation.
pub proof fn lemma_dirty_never_mutates(events: Seq<UpdateEvent>, k: int)
    requires
        events.len() > 0,
        events[0] == (UpdateEvent::DirtyChecked { dirty: true }),
        0 <= k < events.len(),
    ensures
        !is_mutation(run_action(events, k)),
        k > 0 ==> run_phase(events, k) == UpdatePhase::Finished(UpdateOutcome::SkippedDirty),
{
    if k == 0 {
        assert(run_phase(events, 0) == UpdatePhase::CheckDirty);
    } else {
        assert(run_phase(events, 1) == UpdatePhase::Finished(UpdateOutcome::SkippedDirty));
        lemma_finished_stays(events, UpdateOutcome::SkippedDirty, 1, k);
    }
}

/// A successful update invalidates the install record: the step that sees
/// the fast-forward succeed both reports `Updated` and orders the record
/// deleted, so the next run re-provisions against the new source.
pub proof fn lemma_update_invalidates_record(phase: UpdatePhase, behind: usize)
    requires
        phase == (UpdatePhase::FastForward { behind }),
    ensures
        spec_update_step(phase, UpdateEvent::FastForwarded { ok: true }).0 == UpdatePhase::Finished(
            UpdateOutcome::Updated { behind },
        ),
        spec_update_step(phase, UpdateEvent::FastForwarded { ok: true }).1
            == UpdateAction::InvalidateRecord,
{
}

/// A run is well formed when the driver always reports the event the
/// current phase is waiting for (and stops once the attempt is finished).
pub open spec fn well_formed_run(events: Seq<UpdateEvent>) -> bool {
    forall|k: int|
        0 <= k < events.len() ==> phase_expects(#[trigger] run_phase(events, k), events[k])
}

/// A fast-forward is attempted only when the tree was seen clean, the fetch
/// succeeded, and the comparison put the local head strictly behind the
/// remote: on any well-formed run, a `DoFastForward` action means exactly
/// those three events came first.
pub proof fn lemma_fast_forward_needs_clean_behind(events: Seq<UpdateEvent>, k: int)
    requires
        well_formed_run(events),
        0 <= k < events.len(),
        run_action(events, k) == UpdateAction::DoFastForward,
    ensures
        k == 2,
        events[0] == (UpdateEvent::DirtyChecked { dirty: false }),
        events[1] == (UpdateEvent::FetchDone { ok: true }),
        events[2] matches UpdateEvent::Compared { same, behind } && !same && behind > 0,
{
    let p = run_phase(events, k);
    assert(phase_expects(p, events[k]));
    assert(p is CompareCommits);
    lemma_compare_phase_prefix(events, k);
}

proof fn lemma_compare_phase_prefix(events: Seq<UpdateEvent>, k: int)
    requires
        well_formed_run(events),
        0 <= k < events.len(),
        run_phase(events, k) is CompareCommits,
    ensures
        k == 2,
        events[0] == (UpdateEvent::DirtyChecked { dirty: false }),
        events[1] == (UpdateEvent::FetchDone { ok: true }),
{
    if k == 0 {
        assert(run_phase(events, 0) == UpdatePhase::CheckDirty);
    } else {
        let prev = run_phase(events, k - 1);
        assert(phase_expects(prev, events[k - 1]));
        assert(run_phase(events, k) == spec_update_step(prev, events[k - 1]).0);
        assert(prev is Fetch);
        lemma_fetch_phase_prefix(events, k - 1);
    }
}

proof fn lemma_fetch_phase_prefix(events: Seq<UpdateEvent>, k: int)
    requires
        well_formed_run(events),
        0 <= k < events.len(),
        run_phase(events, k) is Fetch,
    ensures
        k == 1,
        events[0] == (UpdateEvent::DirtyChecked { dirty: false }),
{
    if k == 0 {
        assert(run_phase(events, 0) == UpdatePhase::CheckDirty);
    } else {
        let prev = run_phase(events, k - 1);
        assert(phase_expects(prev, events[k - 1]));
        assert(run_phase(events, k) == spec_update_step(prev, events[k - 1]).0);
        assert(prev is CheckDirty);
        lemma_check_dirty_start(events, k - 1);
    }
}

proof fn lemma_check_dirty_start(events: Seq<UpdateEvent>, k: int)
    requires
        well_formed_run(events),
        0 <= k < events.len(),
        run_phase(events, k) is CheckDirty,
    ensures
        k == 0,
{
    if k > 0 {
        let prev = run_phase(events, k - 1);
        assert(phase_expects(prev, events[k - 1]));
        assert(run_phase(events, k) == spec_update_step(prev, events[k - 1]).0);
        assert(false);
    }
}

} // verus!
