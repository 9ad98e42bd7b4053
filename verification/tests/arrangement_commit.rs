use riffra::arrangement_commit::{
    candidate_key, instrument_device_id, projection_required, submitted_projection_outcome,
    ArrangementProjectionOutcome, CanonicalMutationEffect, CommitAction, CommitEvent, DeviceCommit,
};
use riffra::projection::RuntimeProjectionState;
use riffra::shell::AdapterError;

fn step(commit: DeviceCommit, event: CommitEvent) -> (DeviceCommit, CommitAction) {
    assert!(commit.accepts(&event));
    commit.step(event)
}

fn finished_error(action: CommitAction) -> AdapterError {
    match action {
        CommitAction::Finish(Err(error)) => error,
        other => panic!("expected a failure, got {other:?}"),
    }
}

#[test]
fn only_project_changes_outside_safe_mode_are_projected() {
    assert!(projection_required(false, CanonicalMutationEffect::ProjectArrangement));
    assert!(!projection_required(true, CanonicalMutationEffect::ProjectArrangement));
    assert!(!projection_required(false, CanonicalMutationEffect::CanonicalOnly));
}

#[test]
fn a_submitted_projection_reports_its_error_or_is_queued() {
    match submitted_projection_outcome(Some("graph rejected".to_string()), RuntimeProjectionState::Queued) {
        ArrangementProjectionOutcome::Failed { message } => assert_eq!(message, "graph rejected"),
        other => panic!("unexpected {other:?}"),
    }
    match submitted_projection_outcome(None, RuntimeProjectionState::Failed) {
        ArrangementProjectionOutcome::Failed { message } => assert_eq!(message, "runtime projection failed"),
        other => panic!("unexpected {other:?}"),
    }
    assert!(matches!(submitted_projection_outcome(None, RuntimeProjectionState::Active), ArrangementProjectionOutcome::Queued));
}

#[test]
fn a_candidate_from_a_stale_sequence_is_a_conflict() {
    let key = candidate_key(7, 7, 3).unwrap();
    assert_eq!((key.sequence, key.session_revision), (8, 3));
    assert_eq!(candidate_key(u64::MAX, u64::MAX, 1).unwrap().sequence, u64::MAX);
    match candidate_key(7, 9, 3) {
        Err(AdapterError::Conflict { expected_sequence, current_sequence }) => assert_eq!((expected_sequence, current_sequence), (7, 9)),
        other => panic!("unexpected {other:?}"),
    }
}

#[test]
fn an_instrument_keeps_its_id_or_takes_one_from_the_track() {
    assert_eq!(instrument_device_id(Some("device:synth".to_string()), "track:1"), "device:synth");
    assert_eq!(instrument_device_id(None, "track:1"), "device:instrument:track:1");
}

#[test]
fn an_accepted_candidate_is_committed() {
    let (commit, action) = DeviceCommit::new(None);
    assert!(matches!(action, CommitAction::PrepareCandidate));
    let (commit, action) = step(commit, CommitEvent::Prepared(Ok(())));
    assert!(matches!(action, CommitAction::CommitPrepared));
    let (_, action) = step(commit, CommitEvent::Committed(Ok(())));
    assert!(matches!(action, CommitAction::Finish(Ok(()))));
}

#[test]
fn a_change_for_another_project_is_a_project_conflict() {
    let (commit, _) = DeviceCommit::new(Some("project:a".to_string()));
    let (commit, action) = step(commit, CommitEvent::Prepared(Ok(())));
    assert!(matches!(action, CommitAction::EnterCommandGate));
    let (commit, action) = step(commit, CommitEvent::GateEntered(true));
    assert!(matches!(action, CommitAction::ReadActiveProject));
    let (_, action) = step(commit, CommitEvent::ActiveProject(Ok("project:b".to_string())));
    match finished_error(action) {
        AdapterError::ProjectConflict { expected_project_id, current_project_id } => {
            assert_eq!((expected_project_id.as_str(), current_project_id.as_str()), ("project:a", "project:b"))
        }
        other => panic!("unexpected {other:?}"),
    }
    let (commit, _) = DeviceCommit::new(Some("project:a".to_string()));
    let (commit, _) = step(commit, CommitEvent::Prepared(Ok(())));
    let (_, action) = step(commit, CommitEvent::GateEntered(false));
    assert_eq!(finished_error(action).message(), "Host command gate was poisoned");
}

#[test]
fn a_rejected_candidate_is_repaired_and_never_committed() {
    let (commit, _) = DeviceCommit::new(None);
    let (commit, action) = step(commit, CommitEvent::Prepared(Err(AdapterError::RuntimeUnavailable("no graph".to_string()))));
    assert!(matches!(action, CommitAction::ResetForRepair));
    let (commit, action) = step(commit, CommitEvent::Reset(true));
    assert!(matches!(action, CommitAction::SyncArrangement));
    let (_, action) = step(commit, CommitEvent::Synced(Ok(())));
    match finished_error(action) {
        AdapterError::RuntimeUnavailable(message) => assert_eq!(
            message,
            "Arrangement Runtime rejected the instrument or device candidate; the canonical Session was restored: no graph"
        ),
        other => panic!("unexpected {other:?}"),
    }

    let (commit, _) = DeviceCommit::new(None);
    let (commit, _) = step(commit, CommitEvent::Prepared(Err(AdapterError::CommandFailed("bad device".to_string()))));
    let (_, action) = step(commit, CommitEvent::Reset(false));
    match finished_error(action) {
        AdapterError::CommandFailed(message) => assert_eq!(
            message,
            "Arrangement Runtime rejected the instrument or device candidate and could not be reset for the canonical Session: bad device"
        ),
        other => panic!("unexpected {other:?}"),
    }

    let (commit, _) = DeviceCommit::new(None);
    let (commit, _) = step(commit, CommitEvent::Prepared(Ok(())));
    let (commit, _) = step(commit, CommitEvent::Committed(Err(AdapterError::CommandFailed("disk full".to_string()))));
    let (commit, _) = step(commit, CommitEvent::Reset(true));
    let (_, action) = step(commit, CommitEvent::Synced(Err("timeout".to_string())));
    assert_eq!(
        finished_error(action).message(),
        "Arrangement Runtime rejected the instrument or device candidate and the previous graph could not be restored (timeout): disk full"
    );
}

#[test]
fn conflicts_are_reported_as_they_came() {
    let (commit, _) = DeviceCommit::new(None);
    let (_, action) = step(commit, CommitEvent::Prepared(Err(AdapterError::Conflict { expected_sequence: 4, current_sequence: 5 })));
    assert!(matches!(finished_error(action), AdapterError::Conflict { expected_sequence: 4, current_sequence: 5 }));

    let (commit, _) = DeviceCommit::new(None);
    let (commit, _) = step(commit, CommitEvent::Prepared(Ok(())));
    let (commit, action) =
        step(commit, CommitEvent::Committed(Err(AdapterError::Conflict { expected_sequence: 4, current_sequence: 6 })));
    assert!(matches!(action, CommitAction::ResetForRepair));
    let (commit, _) = step(commit, CommitEvent::Reset(true));
    assert!(!commit.accepts(&CommitEvent::Reset(true)));
    let (_, action) = step(commit, CommitEvent::Synced(Ok(())));
    assert!(matches!(finished_error(action), AdapterError::Conflict { expected_sequence: 4, current_sequence: 6 }));
}
