use riffra::model::AudioState;
use riffra::projection::{
    status_reaction, ProjectionState, RuntimeError, RuntimeProjectionState, RuntimeProjectionStatus, StatusReaction, SubmissionResult,
    TargetIdentity, WorkerStep,
};
use riffra::startup::{
    ensure_generation, safe_for_startup_restore, safety_retry, NativeAudioFailure, RuntimeNote, SafetyLoop, SafetyRetry, SafetyStep, StartupAction,
    StartupError, StartupEvent, StartupFailure, StartupOutcome, StartupRun, StartupRuntimeError,
};
use riffra::transport::{ProjectionKey, TransportController};

fn key(sequence: u64, session_revision: u64) -> ProjectionKey {
    ProjectionKey { sequence, session_revision }
}

#[test]
fn host_generates_monotonic_operation_ids_for_play_and_stop() {
    let mut controller = TransportController::default();
    let first = controller.request_play(None);
    let second = controller.request_stop();
    let third = controller.request_play(None);
    assert!(first.operation < second.operation);
    assert!(second.operation < third.operation);
}

#[test]
fn newer_stop_replaces_the_pending_play_intent() {
    let mut controller = TransportController::default();
    let play = controller.request_play(None);
    let stop = controller.request_stop();
    assert!(!controller.is_play_requested(play.operation));
    assert!(stop.operation > play.operation);
}

#[test]
fn activation_only_releases_the_matching_projection() {
    let mut controller = TransportController::default();
    let required = key(3, 8);
    let other = key(4, 9);
    let play = controller.request_play(Some(required));
    assert_eq!(controller.projection_activated(other), None);
    assert_eq!(controller.projection_activated(required), Some(play.operation));
}

#[test]
fn audio_environment_change_invalidates_the_current_play_intent() {
    let mut controller = TransportController::default();
    let play = controller.request_play(None);
    controller.invalidate_for_audio_environment();
    assert!(!controller.is_play_requested(play.operation));
}

#[test]
fn stale_play_rollback_does_not_clear_a_newer_intent() {
    let mut controller = TransportController::new();
    let first = controller.request_play(None);
    let second = controller.request_play(None);
    assert!(!controller.record_play_failure(first.operation));
    assert!(!controller.is_play_requested(first.operation));
    assert!(controller.is_play_requested(second.operation));
}

/// Runs one worker pass the way the host's projection worker does, with a
/// runtime that accepts every preparation and commit; returns the snapshot
/// that was committed.
fn run_worker_pass(state: &mut ProjectionState<u64>, generation: u64, now: u64) -> Option<u64> {
    match state.begin_next(generation, now) {
        WorkerStep::Run(target, snapshot) => {
            state.record_prepare_response(target, true, now + 1);
            if state.should_publish(target, generation) {
                state.record_commit_response(target, true, now + 2);
                state.complete_operation(target, generation, generation, Ok(()), now + 3);
                Some(snapshot)
            } else {
                state.record_unpublished(target, now + 2);
                None
            }
        }
        WorkerStep::Wait | WorkerStep::Exit => None,
    }
}

#[test]
fn keeps_only_the_latest_queued_snapshot() {
    let mut state: ProjectionState<u64> = ProjectionState::new(1);
    state.enqueue(1, key(1, 1), false, 1, 0);
    state.enqueue(2, key(2, 2), false, 1, 0);
    state.enqueue(3, key(3, 3), false, 1, 0);
    let mut loaded = Vec::new();
    while let Some(snapshot) = run_worker_pass(&mut state, 1, 10) {
        loaded.push(snapshot);
    }
    assert_eq!(state.status(1).active_session_revision, Some(3));
    assert_eq!(loaded.last().copied(), Some(3));
    assert!(!loaded.contains(&2));
}

#[test]
fn audio_device_change_reprepares_the_same_canonical_projection() {
    let mut state: ProjectionState<u64> = ProjectionState::new(1);
    state.enqueue(10, key(1, 10), false, 1, 0);
    let mut loaded = Vec::new();
    loaded.extend(run_worker_pass(&mut state, 1, 10));
    assert_eq!(state.status(1).active_session_revision, Some(10));
    assert!(state.advance_audio_environment(1) > 0);
    let submitted = state.enqueue(10, key(1, 10), false, 1, 20);
    assert!(matches!(submitted, SubmissionResult::Accepted { .. }));
    loaded.extend(run_worker_pass(&mut state, 1, 30));
    assert_eq!(loaded, vec![10, 10]);
    assert_eq!(state.status(1).active_session_revision, Some(10));
}

#[test]
fn resubmitting_the_active_projection_is_not_prepared_again() {
    let mut state: ProjectionState<u64> = ProjectionState::new(1);
    state.enqueue(5, key(2, 5), false, 1, 0);
    run_worker_pass(&mut state, 1, 10);
    assert!(matches!(state.enqueue(5, key(2, 5), false, 1, 20), SubmissionResult::AlreadyActive { .. }));
    assert!(matches!(state.enqueue(4, key(1, 4), false, 1, 20), SubmissionResult::Superseded { .. }));
    assert!(state.is_ready_for(1, key(2, 5)));
    assert!(!state.is_ready_for(2, key(2, 5)));
}

#[test]
fn runtime_error_messages_name_the_failure() {
    assert_eq!(RuntimeError::ShuttingDown.message(), "runtime is shutting down");
    assert_eq!(
        RuntimeError::GenerationChanged { expected: 1, actual: 2 }.message(),
        "runtime generation changed (expected 1, actual 2)"
    );
}

struct FakeStartupAudio {
    generation: u64,
    status_state: AudioState,
    lose_first_generation: bool,
    events: Vec<&'static str>,
}

impl FakeStartupAudio {
    fn new(status_state: AudioState, lose_first_generation: bool) -> Self {
        Self { generation: 1, status_state, lose_first_generation, events: Vec::new() }
    }

    fn initialize_generation(&mut self, generation: u64) -> Result<AudioState, StartupError> {
        self.events.push(if generation == 1 { "lost" } else { "ready" });
        if self.lose_first_generation && generation == 1 {
            return Err(StartupError::Readiness(NativeAudioFailure::TransportLost, "fake sidecar stopped".into()));
        }
        self.events.push("gain");
        ensure_generation(generation, self.generation)?;
        self.events.push("status");
        ensure_generation(generation, self.generation)?;
        Ok(self.status_state)
    }

    /// The safety phase of startup, driven by the library's safety loop.
    fn initialize_safety(&mut self) -> Result<AudioState, String> {
        let mut safety = SafetyLoop::new();
        loop {
            let generation = self.generation;
            safety.begin(generation);
            let outcome = self.initialize_generation(generation);
            match safety.after_attempt(generation, outcome, self.generation, false, true) {
                SafetyStep::Accept(state) => return Ok(state),
                SafetyStep::Attempt => continue,
                SafetyStep::Wait { .. } => {
                    self.generation = 2;
                    continue;
                }
                SafetyStep::Fail(message) => return Err(message),
            }
        }
    }
}

#[test]
fn keeps_output_muted_while_retrying_transport_loss_on_a_new_generation() {
    let mut audio = FakeStartupAudio::new(AudioState::Muted, true);
    let state = audio.initialize_safety().unwrap();
    assert_eq!(state, AudioState::Muted);
    assert_eq!(audio.events.as_slice(), ["lost", "ready", "gain", "status"]);
}

#[test]
fn does_not_release_mute_for_a_faulted_status() {
    let mut audio = FakeStartupAudio::new(AudioState::Faulted, false);
    let state = audio.initialize_safety().unwrap();
    assert_eq!(state, AudioState::Faulted);
    assert!(!safe_for_startup_restore(state, false));
}

#[test]
fn retains_a_muted_status_while_preparing_the_runtime() {
    let mut audio = FakeStartupAudio::new(AudioState::Muted, false);
    let state = audio.initialize_safety().unwrap();
    assert_eq!(state, AudioState::Muted);
    assert!(safe_for_startup_restore(state, false));
    assert!(!safe_for_startup_restore(state, true));
}

#[test]
fn timed_out_control_commands_are_retried_three_times() {
    let timeout = StartupError::Control(NativeAudioFailure::Timeout, "slow".into());
    assert_eq!(safety_retry(&timeout, 1, 1, false, true, 0), SafetyRetry::RetrySameGeneration);
    assert_eq!(safety_retry(&timeout, 1, 1, false, true, 3), SafetyRetry::GiveUp);
    assert_eq!(safety_retry(&timeout, 2, 1, false, false, 0), SafetyRetry::GiveUp);
    assert_eq!(timeout.message(), "native audio startup control failed: slow");
}

#[test]
fn safety_loop_gives_up_after_three_control_retries_and_counts_again_on_a_new_generation() {
    let mut safety = SafetyLoop::new();
    for _ in 0..3 {
        safety.begin(1);
        let outcome: Result<u8, StartupError> = Err(StartupError::Control(NativeAudioFailure::Timeout, "slow".into()));
        assert!(matches!(safety.after_attempt(1, outcome, 1, false, true), SafetyStep::Attempt));
    }
    assert_eq!(safety.control_retries, 3);
    safety.begin(1);
    let outcome: Result<u8, StartupError> = Err(StartupError::Control(NativeAudioFailure::Timeout, "slow".into()));
    match safety.after_attempt(1, outcome, 1, false, true) {
        SafetyStep::Fail(message) => assert_eq!(message, "native audio startup control failed: slow"),
        _ => panic!("expected the loop to give up"),
    }
    safety.begin(2);
    assert_eq!(safety.control_retries, 0);
    assert_eq!(safety.retry_generation, Some(2));
    let moved: Result<u8, StartupError> = Ok(7);
    assert!(matches!(safety.after_attempt(2, moved, 3, false, true), SafetyStep::Attempt));
    let lost: Result<u8, StartupError> = Err(StartupError::Readiness(NativeAudioFailure::TransportLost, "gone".into()));
    match safety.after_attempt(2, lost, 2, false, true) {
        SafetyStep::Wait { generation, message } => {
            assert_eq!(generation, 2);
            assert_eq!(message, "native audio readiness failed: gone");
        }
        _ => panic!("expected a wait for the next generation"),
    }
    let safe: Result<u8, StartupError> = Ok(9);
    assert!(matches!(safety.after_attempt(2, safe, 2, false, true), SafetyStep::Accept(9)));
}

fn finish(action: StartupAction<&'static str>) -> StartupOutcome<&'static str> {
    match action {
        StartupAction::Finish(outcome) => outcome,
        _ => panic!("expected startup to finish"),
    }
}

#[test]
fn startup_completes_after_restore_release_and_completion() {
    let (run, action) = StartupRun::<&'static str>::new();
    assert!(matches!(action, StartupAction::CheckShutdown));
    let (run, action) = run.step(StartupEvent::ShutdownChecked(false));
    assert!(matches!(action, StartupAction::InitializeSafety));
    let (run, action) = run.step(StartupEvent::SafetyChecked(Ok("muted"), true));
    assert!(matches!(action, StartupAction::ReadGeneration));
    let (run, action) = run.step(StartupEvent::GenerationRead(4));
    assert!(matches!(action, StartupAction::CheckShutdown));
    let (run, action) = run.step(StartupEvent::ShutdownChecked(false));
    assert!(matches!(action, StartupAction::Restore(4)));
    let (run, action) = run.step(StartupEvent::RestoreFinished(Ok(())));
    assert!(matches!(action, StartupAction::ReleaseMute(4)));
    let (run, action) = run.step(StartupEvent::ReleaseFinished(Ok("ready")));
    assert!(matches!(action, StartupAction::MarkCompleted(4)));
    let (_, action) = run.step(StartupEvent::CompletionMarked(true));
    match finish(action) {
        StartupOutcome::Initialized { status, note } => {
            assert_eq!(status, "ready");
            assert!(note.is_none());
        }
        StartupOutcome::Failed(_) => panic!("expected a clean startup"),
    }
}

#[test]
fn startup_gives_up_after_three_generation_changes() {
    let (mut run, _) = StartupRun::<&'static str>::new();
    for _ in 0..3 {
        let (next, _) = run.step(StartupEvent::ShutdownChecked(false));
        let (next, _) = next.step(StartupEvent::SafetyChecked(Ok("muted"), true));
        let (next, _) = next.step(StartupEvent::GenerationRead(1));
        let (next, _) = next.step(StartupEvent::ShutdownChecked(false));
        let (next, action) = next.step(StartupEvent::RestoreFinished(Err(StartupRuntimeError::GenerationChanged("moved".into()))));
        run = next;
        if let StartupAction::Finish(outcome) = action {
            match outcome {
                StartupOutcome::Failed(failure) => {
                    assert!(matches!(failure, StartupFailure::NotConverged));
                    assert_eq!(failure.message("shutting down"), "native audio startup did not converge after 3 sidecar generations");
                }
                StartupOutcome::Initialized { .. } => panic!("expected a failure"),
            }
            return;
        }
    }
    panic!("startup did not give up");
}

#[test]
fn unsafe_devices_keep_the_runtime_muted() {
    let (run, _) = StartupRun::<&'static str>::new();
    let (run, _) = run.step(StartupEvent::ShutdownChecked(false));
    let (_, action) = run.step(StartupEvent::SafetyChecked(Ok("faulted"), false));
    match finish(action) {
        StartupOutcome::Initialized { status, note } => {
            assert_eq!(status, "faulted");
            assert_eq!(note.unwrap().message(), "native audio startup safety check failed; feature runtime remains muted");
        }
        StartupOutcome::Failed(_) => panic!("expected a muted startup"),
    }
}

#[test]
fn a_feature_failure_still_releases_the_mute_but_reports_it() {
    let (run, _) = StartupRun::<&'static str>::new();
    let (run, _) = run.step(StartupEvent::ShutdownChecked(false));
    let (run, _) = run.step(StartupEvent::SafetyChecked(Ok("muted"), true));
    let (run, _) = run.step(StartupEvent::GenerationRead(2));
    let (run, _) = run.step(StartupEvent::ShutdownChecked(false));
    let (run, action) = run.step(StartupEvent::RestoreFinished(Err(StartupRuntimeError::Feature("graph failed".into()))));
    assert!(matches!(action, StartupAction::ReleaseMute(2)));
    let (_, action) = run.step(StartupEvent::ReleaseFinished(Ok("ready")));
    match finish(action) {
        StartupOutcome::Initialized { status, note } => {
            assert_eq!(status, "ready");
            let note = note.unwrap();
            assert!(matches!(note, RuntimeNote::RuntimeMuted(_)));
            assert_eq!(note.message(), "graph failed; Arrangement Runtime remains muted");
        }
        StartupOutcome::Failed(_) => panic!("expected a muted startup"),
    }
}

fn begin(state: &mut ProjectionState<u64>, generation: u64, now: u64) -> (TargetIdentity, u64) {
    match state.begin_next(generation, now) {
        WorkerStep::Run(target, snapshot) => (target, snapshot),
        WorkerStep::Wait | WorkerStep::Exit => panic!("nothing to prepare"),
    }
}

#[test]
fn a_superseded_prepared_snapshot_is_discarded_not_published() {
    let mut state: ProjectionState<u64> = ProjectionState::new(1);
    state.enqueue(1, key(1, 1), false, 1, 0);
    let (first, _) = begin(&mut state, 1, 1);
    state.enqueue(2, key(2, 2), false, 1, 2);
    state.record_prepare_response(first, true, 3);
    assert!(!state.should_publish(first, 1));
    state.record_unpublished(first, 4);
    assert_eq!(run_worker_pass(&mut state, 1, 10), Some(2));
    let status = state.status(1);
    assert_eq!(status.active_session_revision, Some(2));
    assert_eq!(status.prepared_session_revision, None);
    assert_eq!(status.discarded_preparation_count, 1);
    assert!(status.last_native_response_at_ms.is_some());
}

#[test]
fn an_out_of_order_request_does_not_regress_the_active_graph() {
    let mut state: ProjectionState<u64> = ProjectionState::new(1);
    state.enqueue(10, key(10, 10), false, 1, 0);
    assert_eq!(run_worker_pass(&mut state, 1, 10), Some(10));
    assert!(matches!(state.enqueue(9, key(9, 9), false, 1, 20), SubmissionResult::Superseded { .. }));
    let status = state.status(1);
    assert_eq!(status.target_session_revision, Some(10));
    assert_eq!(status.state, RuntimeProjectionState::Active);
    assert_eq!(status.active_session_revision, Some(10));
    assert_eq!(run_worker_pass(&mut state, 1, 30), None);
}

#[test]
fn a_preparation_from_an_old_runtime_generation_never_becomes_active() {
    let mut state: ProjectionState<u64> = ProjectionState::new(1);
    state.enqueue(4, key(4, 4), false, 1, 0);
    let (target, _) = begin(&mut state, 1, 1);
    // The runtime restarts (generation 2) while the graph prepares, and the
    // host reads the status meanwhile.
    assert_eq!(state.status(2).active_projection_sequence, None);
    state.record_prepare_response(target, true, 2);
    assert!(!state.should_publish(target, 1));
    state.record_unpublished(target, 3);
    let status = state.status(2);
    assert!(matches!(status.state, RuntimeProjectionState::Idle | RuntimeProjectionState::Failed));
    assert_eq!(status.active_projection_sequence, None);
    assert!(status.audio_environment_revision > 0);
}

#[test]
fn a_late_lower_sequence_is_refused_while_a_newer_graph_prepares() {
    let mut state: ProjectionState<u64> = ProjectionState::new(1);
    state.enqueue(20, key(20, 20), false, 1, 0);
    let (target, snapshot) = begin(&mut state, 1, 1);
    assert!(matches!(state.enqueue(19, key(19, 19), false, 1, 2), SubmissionResult::Superseded { .. }));
    assert_eq!(state.status(1).target_projection_sequence, Some(20));
    state.record_prepare_response(target, true, 3);
    assert!(state.should_publish(target, 1));
    state.record_commit_response(target, true, 4);
    state.complete_operation(target, 1, 1, Ok(()), 5);
    assert_eq!(snapshot, 20);
    assert_eq!(state.status(1).active_projection_sequence, Some(20));
    assert_eq!(run_worker_pass(&mut state, 1, 10), None);
}

#[test]
fn a_restored_session_with_a_lower_revision_is_projected() {
    let mut state: ProjectionState<u64> = ProjectionState::new(1);
    state.enqueue(100, key(1, 100), false, 1, 0);
    assert_eq!(run_worker_pass(&mut state, 1, 10), Some(100));
    state.enqueue(40, key(2, 40), false, 1, 20);
    assert_eq!(run_worker_pass(&mut state, 1, 30), Some(40));
    let status = state.status(1);
    assert_eq!(status.active_projection_sequence, Some(2));
    assert_eq!(status.active_session_revision, Some(40));
}

#[test]
fn a_waiter_that_times_out_names_its_operation() {
    assert_eq!(
        riffra::projection::wait_timed_out(7, 60).message(),
        "runtime operation timed out: Runtime operation 7 did not become active within 60 seconds."
    );
}

fn published(state: RuntimeProjectionState, active: (Option<u64>, Option<u64>), target: (Option<u64>, Option<u64>)) -> RuntimeProjectionStatus {
    let mut status = ProjectionState::<u64>::new(1).status(1);
    status.state = state;
    status.active_projection_sequence = active.0;
    status.active_session_revision = active.1;
    status.target_projection_sequence = target.0;
    status.target_session_revision = target.1;
    status
}

#[test]
fn transport_reacts_to_activation_and_failure_of_a_projection() {
    assert_eq!(
        status_reaction(&published(RuntimeProjectionState::Active, (Some(3), Some(7)), (None, None))),
        StatusReaction::PlayAfter(key(3, 7))
    );
    assert_eq!(
        status_reaction(&published(RuntimeProjectionState::Failed, (Some(3), Some(7)), (Some(4), Some(8)))),
        StatusReaction::FailPlay(key(4, 8))
    );
    assert_eq!(
        status_reaction(&published(RuntimeProjectionState::Active, (Some(3), None), (None, None))),
        StatusReaction::Nothing
    );
    assert_eq!(
        status_reaction(&published(RuntimeProjectionState::Preparing, (Some(3), Some(7)), (Some(4), Some(8)))),
        StatusReaction::Nothing
    );
}

#[test]
fn play_is_refused_while_the_projection_failed() {
    match riffra::projection::play_admission(RuntimeProjectionState::Failed) {
        Err(RuntimeError::NativeRejected(message)) => assert_eq!(message, "The active Arrangement Graph is unavailable."),
        _ => panic!("expected the Play to be refused"),
    }
    assert!(riffra::projection::play_admission(RuntimeProjectionState::Active).is_ok());
    assert!(riffra::projection::play_admission(RuntimeProjectionState::Preparing).is_ok());
}

#[test]
fn a_failed_play_stops_transport_only_when_it_was_current() {
    let mut controller = TransportController::new();
    let first = controller.request_play(Some(key(1, 1))).operation;
    assert!(!controller.should_play(Some(first), None));
    assert!(controller.should_play(Some(first), Some(key(1, 1))));
    assert!(controller.should_play(None, None));
    let second = controller.request_play(Some(key(2, 2))).operation;
    assert!(!controller.play_failed(Some(first)));
    assert!(controller.is_play_requested(second));
    assert!(controller.play_failed(Some(second)));
    assert!(!controller.is_play_requested(second));
    assert!(controller.play_failed(None));
}
