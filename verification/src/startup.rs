//! The startup safety transaction of the live audio runtime.
//!
//! Startup keeps the output muted until the device is safe, the canonical
//! arrangement has been accepted by the runtime, and the same sidecar
//! generation is still alive. The transaction is a state machine: the host
//! performs each action and hands back what happened; the machine decides
//! the next action. A generation change restarts the transaction (at most
//! three times), a changed restore target retries the restore (at most three
//! times per generation), and every other failure ends it with the output
//! muted.

use vstd::prelude::*;
use crate::model::AudioState;
use crate::text::{concat2, to_string, append_str, u64_to_decimal, decimal};

verus! {

broadcast use vstd::string::group_string_axioms;

/// How many sidecar generations startup tries.
pub const GENERATION_RETRY_LIMIT: u64 = 3;
/// How many restore targets startup tries within one generation.
pub const TARGET_RETRY_LIMIT: u64 = 3;
/// How many times a timed-out control command is retried on one generation.
pub const CONTROL_RETRY_LIMIT: u64 = 3;

/// What kind of native audio failure occurred.
#[derive(Clone, Copy, Debug, PartialEq, Eq, Structural)]
pub enum NativeAudioFailure {
    TransportLost,
    GenerationChanged,
    Timeout,
    DeadlineExpired,
    ShuttingDown,
    Other,
}

/// A failure while making one sidecar generation safe; the string is the
/// native error's message.
#[derive(Clone, Debug)]
pub enum StartupError {
    Readiness(NativeAudioFailure, String),
    Control(NativeAudioFailure, String),
    GenerationChanged { expected: u64, actual: u64 },
}

pub open spec fn generation_changed_text(expected: u64, actual: u64) -> Seq<char> {
    "native audio sidecar generation changed from "@ + decimal(expected as nat) + " to "@ + decimal(actual as nat)
}

/// The message of a startup error.
pub open spec fn startup_error_text(e: StartupError) -> Seq<char> {
    match e {
        StartupError::Readiness(_, m) => "native audio readiness failed: "@ + m@,
        StartupError::Control(_, m) => "native audio startup control failed: "@ + m@,
        StartupError::GenerationChanged { expected, actual } => generation_changed_text(expected, actual),
    }
}

/// `native audio sidecar generation changed from <expected> to <actual>`.
pub fn generation_changed_message(expected: u64, actual: u64) -> (m: String)
    ensures
        m@ == generation_changed_text(expected, actual),
{
    let mut m = to_string("native audio sidecar generation changed from ");
    let e = u64_to_decimal(expected);
    append_str(&mut m, e.as_str());
    append_str(&mut m, " to ");
    let a = u64_to_decimal(actual);
    append_str(&mut m, a.as_str());
    m
}

impl StartupError {
    /// The error's message.
    pub fn message(&self) -> (m: String)
        ensures
            m@ == startup_error_text(*self),
    {
        match self {
            StartupError::Readiness(_, e) => concat2("native audio readiness failed: ", e.as_str()),
            StartupError::Control(_, e) => concat2("native audio startup control failed: ", e.as_str()),
            StartupError::GenerationChanged { expected, actual } => generation_changed_message(*expected, *actual),
        }
    }

    /// Whether startup should wait for the next sidecar generation: the
    /// generation already changed, the transport was lost or the generation
    /// changed under the command, or the sidecar of this generation ended.
    pub fn should_wait_for_next_generation(&self, current_generation: u64, expected_generation: u64, sidecar_terminated: bool) -> (r: bool)
        ensures
            r == (current_generation != expected_generation || match *self {
                StartupError::Readiness(k, _) => k == NativeAudioFailure::TransportLost || k == NativeAudioFailure::GenerationChanged || sidecar_terminated,
                StartupError::Control(k, _) => k == NativeAudioFailure::TransportLost || k == NativeAudioFailure::GenerationChanged || sidecar_terminated,
                StartupError::GenerationChanged { .. } => true,
            }),
    {
        if current_generation != expected_generation {
            return true;
        }
        match self {
            StartupError::Readiness(k, _) | StartupError::Control(k, _) => {
                *k == NativeAudioFailure::TransportLost || *k == NativeAudioFailure::GenerationChanged || sidecar_terminated
            },
            StartupError::GenerationChanged { .. } => true,
        }
    }

    /// Whether the same generation is worth another try: a control command
    /// timed out or ran past its deadline.
    pub fn retry_same_generation(&self) -> (r: bool)
        ensures
            r == (*self matches StartupError::Control(k, _) && (k == NativeAudioFailure::Timeout || k == NativeAudioFailure::DeadlineExpired)),
    {
        match self {
            StartupError::Control(k, _) => *k == NativeAudioFailure::Timeout || *k == NativeAudioFailure::DeadlineExpired,
            _ => false,
        }
    }
}

/// The generation check after a safety command: an error when the sidecar
/// generation is no longer the expected one.
pub fn ensure_generation(expected: u64, actual: u64) -> (r: Result<(), StartupError>)
    ensures
        actual == expected <==> r is Ok,
        r matches Err(e) ==> e == (StartupError::GenerationChanged { expected, actual }),
{
    if actual == expected {
        Ok(())
    } else {
        Err(StartupError::GenerationChanged { expected, actual })
    }
}

/// What to do after making a generation safe failed.
#[derive(Clone, Copy, Debug, PartialEq, Eq, Structural)]
pub enum SafetyRetry {
    WaitForNextGeneration,
    RetrySameGeneration,
    GiveUp,
}

/// After a failure on `expected_generation`: wait for the next generation
/// when one is coming (and time remains), retry a timed-out control command
/// up to `CONTROL_RETRY_LIMIT` times, else give up.
pub fn safety_retry(
    error: &StartupError,
    current_generation: u64,
    expected_generation: u64,
    sidecar_terminated: bool,
    time_remains: bool,
    control_retries: u64,
) -> (r: SafetyRetry)
    ensures
        ({
            let wait = current_generation != expected_generation || match *error {
                StartupError::Readiness(k, _) => k == NativeAudioFailure::TransportLost || k == NativeAudioFailure::GenerationChanged || sidecar_terminated,
                StartupError::Control(k, _) => k == NativeAudioFailure::TransportLost || k == NativeAudioFailure::GenerationChanged || sidecar_terminated,
                StartupError::GenerationChanged { .. } => true,
            };
            let retry = *error matches StartupError::Control(k, _) && (k == NativeAudioFailure::Timeout || k == NativeAudioFailure::DeadlineExpired);
            r == if wait {
                if time_remains { SafetyRetry::WaitForNextGeneration } else { SafetyRetry::GiveUp }
            } else if retry && control_retries < CONTROL_RETRY_LIMIT {
                SafetyRetry::RetrySameGeneration
            } else {
                SafetyRetry::GiveUp
            }
        }),
{
    if error.should_wait_for_next_generation(current_generation, expected_generation, sidecar_terminated) {
        if time_remains { SafetyRetry::WaitForNextGeneration } else { SafetyRetry::GiveUp }
    } else if error.retry_same_generation() && control_retries < CONTROL_RETRY_LIMIT {
        SafetyRetry::RetrySameGeneration
    } else {
        SafetyRetry::GiveUp
    }
}

/// The retry bookkeeping of the safety loop: the generation whose control
/// retries are being counted, and how many it has had.
#[derive(Clone, Copy, Debug)]
pub struct SafetyLoop {
    pub retry_generation: Option<u64>,
    pub control_retries: u64,
}

/// The safety loop never counts more control retries than the limit.
pub open spec fn safety_loop_wf(l: SafetyLoop) -> bool {
    l.control_retries <= CONTROL_RETRY_LIMIT
}

/// What the host does after one attempt to make a generation safe.
#[derive(Clone, Debug)]
pub enum SafetyStep<S> {
    /// The generation is safe; startup goes on with this status.
    Accept(S),
    /// Try again: read the current generation and attempt it.
    Attempt,
    /// Wait for the generation after `generation`; if none comes in the
    /// remaining time, fail with `message`.
    Wait { generation: u64, message: String },
    /// Give up with this message.
    Fail(String),
}

/// The step after an attempt on `generation` ended with `outcome`, the
/// sidecar being on `current_generation` afterwards: `after` is the loop
/// and `step` what the host does next.
pub open spec fn safety_step_spec<S>(
    l: SafetyLoop,
    generation: u64,
    outcome: Result<S, StartupError>,
    current_generation: u64,
    sidecar_terminated: bool,
    time_remains: bool,
    after: SafetyLoop,
    step: SafetyStep<S>,
) -> bool {
    match outcome {
        Ok(s) => after == l && step == (if current_generation == generation { SafetyStep::Accept(s) } else { SafetyStep::Attempt }),
        Err(e) => {
            let wait = current_generation != generation || match e {
                StartupError::Readiness(k, _) => k == NativeAudioFailure::TransportLost || k == NativeAudioFailure::GenerationChanged || sidecar_terminated,
                StartupError::Control(k, _) => k == NativeAudioFailure::TransportLost || k == NativeAudioFailure::GenerationChanged || sidecar_terminated,
                StartupError::GenerationChanged { .. } => true,
            };
            let retry = e matches StartupError::Control(k, _) && (k == NativeAudioFailure::Timeout || k == NativeAudioFailure::DeadlineExpired);
            let text = startup_error_text(e);
            if wait && time_remains {
                after == l && (step matches SafetyStep::Wait { generation: g, message } && g == generation && message@ == text)
            } else if !wait && retry && l.control_retries < CONTROL_RETRY_LIMIT {
                after == (SafetyLoop { control_retries: (l.control_retries + 1) as u64, ..l }) && step is Attempt
            } else {
                after == l && (step matches SafetyStep::Fail(message) && message@ == text)
            }
        },
    }
}

impl SafetyLoop {
    /// A loop that has counted nothing yet.
    pub fn new() -> (l: SafetyLoop)
        ensures
            l.retry_generation is None,
            l.control_retries == 0,
            safety_loop_wf(l),
    {
        SafetyLoop { retry_generation: None, control_retries: 0 }
    }

    /// Starts an attempt on `generation`: the retry count starts again from
    /// zero when the generation is not the one being counted.
    pub fn begin(&mut self, generation: u64)
        requires
            safety_loop_wf(*old(self)),
        ensures
            final(self).retry_generation == Some(generation),
            final(self).control_retries == if old(self).retry_generation == Some(generation) {
                old(self).control_retries
            } else {
                0
            },
            safety_loop_wf(*final(self)),
    {
        if self.retry_generation != Some(generation) {
            self.retry_generation = Some(generation);
            self.control_retries = 0;
        }
    }

    /// Decides the step after an attempt on `generation`: a success counts
    /// only when the sidecar is still on that generation; a failure waits
    /// for the next generation, retries a timed-out control command, or
    /// gives up (see `safety_retry`).
    pub fn after_attempt<S>(
        &mut self,
        generation: u64,
        outcome: Result<S, StartupError>,
        current_generation: u64,
        sidecar_terminated: bool,
        time_remains: bool,
    ) -> (step: SafetyStep<S>)
        requires
            safety_loop_wf(*old(self)),
        ensures
            safety_step_spec(*old(self), generation, outcome, current_generation, sidecar_terminated, time_remains, *final(self), step),
            safety_loop_wf(*final(self)),
    {
        match outcome {
            Ok(s) => {
                if current_generation == generation {
                    SafetyStep::Accept(s)
                } else {
                    SafetyStep::Attempt
                }
            },
            Err(e) => {
                let decision = safety_retry(&e, current_generation, generation, sidecar_terminated, time_remains, self.control_retries);
                match decision {
                    SafetyRetry::WaitForNextGeneration => SafetyStep::Wait { generation, message: e.message() },
                    SafetyRetry::RetrySameGeneration => {
                        self.control_retries = self.control_retries + 1;
                        SafetyStep::Attempt
                    },
                    SafetyRetry::GiveUp => SafetyStep::Fail(e.message()),
                }
            },
        }
    }
}

/// Whether the runtime may be restored on a device in this state: ready or
/// muted, with no feedback suspected.
pub fn safe_for_startup_restore(state: AudioState, feedback_suspected: bool) -> (r: bool)
    ensures
        r == ((state == AudioState::Ready || state == AudioState::Muted) && !feedback_suspected),
{
    (state == AudioState::Ready || state == AudioState::Muted) && !feedback_suspected
}

/// Whether the sidecar left generation `expected`.
pub fn sidecar_transitioned(current_generation: u64, expected: u64, terminated: bool) -> (r: bool)
    ensures
        r == (current_generation != expected || terminated),
{
    current_generation != expected || terminated
}

/// A failure while restoring the arrangement runtime at startup.
#[derive(Clone, Debug)]
pub enum StartupRuntimeError {
    GenerationChanged(String),
    TargetChanged,
    Feature(String),
    Safety(String),
}

/// The decision after asking the sidecar to release its startup mute:
/// the released status; when nothing was released, the muted status if the
/// user holds the mute, else a safety error.
pub fn release_result<S>(released: Option<S>, muted_status: S, user_muted: Result<bool, String>) -> (r: Result<S, StartupRuntimeError>)
    ensures
        match released {
            Some(s) => r == Ok::<S, StartupRuntimeError>(s),
            None => match user_muted {
                Ok(true) => r == Ok::<S, StartupRuntimeError>(muted_status),
                Ok(false) => r matches Err(StartupRuntimeError::Safety(m))
                    && m@ == "startup emergency mute remains engaged because the audio status is unsafe"@,
                Err(e) => r matches Err(StartupRuntimeError::Safety(m))
                    && m@ == "startup emergency mute cause could not be read: "@ + e@,
            },
        },
{
    match released {
        Some(s) => Ok(s),
        None => match user_muted {
            Ok(true) => Ok(muted_status),
            Ok(false) => Err(StartupRuntimeError::Safety(to_string("startup emergency mute remains engaged because the audio status is unsafe"))),
            Err(e) => Err(StartupRuntimeError::Safety(concat2("startup emergency mute cause could not be read: ", e.as_str()))),
        },
    }
}

/// Why startup failed outright.
#[derive(Clone, Debug)]
pub enum StartupFailure {
    /// The host is shutting down.
    ShuttingDown,
    /// The device could not be made safe; the message says why.
    Safety(String),
    /// Every generation changed under startup.
    NotConverged,
}

/// Why the runtime stays muted after startup.
#[derive(Clone, Debug)]
pub enum RuntimeNote {
    SafetyCheckFailed,
    TargetChangedRepeatedly,
    Safety(String),
    MuteNotReleased(String),
    RuntimeMuted(String),
    RuntimeMutedAndMuteNotReleased(String, String),
}

pub open spec fn runtime_note_text(n: RuntimeNote) -> Seq<char> {
    match n {
        RuntimeNote::SafetyCheckFailed => "native audio startup safety check failed; feature runtime remains muted"@,
        RuntimeNote::TargetChangedRepeatedly => "startup runtime target changed repeatedly; output remains muted"@,
        RuntimeNote::Safety(m) => m@,
        RuntimeNote::MuteNotReleased(m) => "Arrangement Runtime restored, but startup safety mute could not be released: "@ + m@,
        RuntimeNote::RuntimeMuted(m) => m@ + "; Arrangement Runtime remains muted"@,
        RuntimeNote::RuntimeMutedAndMuteNotReleased(m, r) => m@ + "; startup safety mute could not be released: "@ + r@,
    }
}

pub open spec fn startup_failure_text(f: StartupFailure, shutting_down: Seq<char>) -> Seq<char> {
    match f {
        StartupFailure::ShuttingDown => shutting_down,
        StartupFailure::Safety(m) => m@,
        StartupFailure::NotConverged => "native audio startup did not converge after 3 sidecar generations"@,
    }
}

impl RuntimeNote {
    /// The note's message.
    pub fn message(&self) -> (m: String)
        ensures
            m@ == runtime_note_text(*self),
    {
        match self {
            RuntimeNote::SafetyCheckFailed => to_string("native audio startup safety check failed; feature runtime remains muted"),
            RuntimeNote::TargetChangedRepeatedly => to_string("startup runtime target changed repeatedly; output remains muted"),
            RuntimeNote::Safety(m) => m.clone(),
            RuntimeNote::MuteNotReleased(m) => concat2("Arrangement Runtime restored, but startup safety mute could not be released: ", m.as_str()),
            RuntimeNote::RuntimeMuted(m) => concat2(m.as_str(), "; Arrangement Runtime remains muted"),
            RuntimeNote::RuntimeMutedAndMuteNotReleased(m, r) => {
                let mut t = concat2(m.as_str(), "; startup safety mute could not be released: ");
                append_str(&mut t, r.as_str());
                t
            },
        }
    }
}

impl StartupFailure {
    /// The failure's message; `shutting_down` is the host's message for a
    /// shutdown.
    pub fn message(&self, shutting_down: &str) -> (m: String)
        ensures
            m@ == startup_failure_text(*self, shutting_down@),
    {
        match self {
            StartupFailure::ShuttingDown => to_string(shutting_down),
            StartupFailure::Safety(m) => m.clone(),
            StartupFailure::NotConverged => to_string("native audio startup did not converge after 3 sidecar generations"),
        }
    }
}

/// How startup ended. Every ending other than `Initialized` without a note
/// leaves the startup marked as failed.
pub enum StartupOutcome<S> {
    Failed(StartupFailure),
    Initialized { status: S, note: Option<RuntimeNote> },
}

/// Where the transaction stands; `S` is the audio status.
pub enum StartupPhase<S> {
    ShutdownBeforeSafety,
    AwaitSafety,
    AwaitGeneration(S),
    ShutdownBeforeRestore(S),
    AwaitRestore(S),
    AwaitRelease(S),
    AwaitReleaseAfterFeature(S, String),
    AwaitCompletion(S),
    Finished,
}

/// The startup transaction.
pub struct StartupRun<S> {
    pub generation_round: u64,
    pub target_round: u64,
    pub generation: u64,
    pub phase: StartupPhase<S>,
}

/// What the host reports back.
pub enum StartupEvent<S> {
    /// Whether the host is shutting down.
    ShutdownChecked(bool),
    /// The result of making the device safe, and whether that status is
    /// safe for restoring the runtime.
    SafetyChecked(Result<S, String>, bool),
    /// The current sidecar generation.
    GenerationRead(u64),
    RestoreFinished(Result<(), StartupRuntimeError>),
    ReleaseFinished(Result<S, StartupRuntimeError>),
    /// Whether the sidecar accepted completing startup on the generation.
    CompletionMarked(bool),
}

/// What the host does next.
pub enum StartupAction<S> {
    CheckShutdown,
    InitializeSafety,
    ReadGeneration,
    Restore(u64),
    ReleaseMute(u64),
    MarkCompleted(u64),
    Finish(StartupOutcome<S>),
}

/// Begins generation round `round`, or gives up after the last one.
pub open spec fn begin_generation<S>(round: u64) -> (StartupRun<S>, StartupAction<S>) {
    if round >= GENERATION_RETRY_LIMIT {
        (StartupRun { generation_round: round, target_round: 0, generation: 0, phase: StartupPhase::Finished },
         StartupAction::Finish(StartupOutcome::Failed(StartupFailure::NotConverged)))
    } else {
        (StartupRun { generation_round: round, target_round: 0, generation: 0, phase: StartupPhase::ShutdownBeforeSafety },
         StartupAction::CheckShutdown)
    }
}

/// Begins restore attempt `target` of a generation, or stops after the
/// last one with the output muted.
pub open spec fn begin_target<S>(round: u64, generation: u64, target: u64, status: S) -> (StartupRun<S>, StartupAction<S>) {
    if target >= TARGET_RETRY_LIMIT {
        (StartupRun { generation_round: round, target_round: target, generation, phase: StartupPhase::Finished },
         StartupAction::Finish(StartupOutcome::Initialized { status, note: Some(RuntimeNote::TargetChangedRepeatedly) }))
    } else {
        (StartupRun { generation_round: round, target_round: target, generation, phase: StartupPhase::ShutdownBeforeRestore(status) },
         StartupAction::CheckShutdown)
    }
}

pub open spec fn finish<S>(run: StartupRun<S>, outcome: StartupOutcome<S>) -> (StartupRun<S>, StartupAction<S>) {
    (StartupRun { generation_round: run.generation_round, target_round: run.target_round, generation: run.generation, phase: StartupPhase::Finished },
     StartupAction::Finish(outcome))
}

pub open spec fn moved<S>(run: StartupRun<S>, phase: StartupPhase<S>, action: StartupAction<S>) -> (StartupRun<S>, StartupAction<S>) {
    (StartupRun { generation_round: run.generation_round, target_round: run.target_round, generation: run.generation, phase }, action)
}

/// Whether the transaction is waiting for this kind of event.
pub open spec fn accepts<S>(phase: StartupPhase<S>, event: StartupEvent<S>) -> bool {
    match phase {
        StartupPhase::ShutdownBeforeSafety | StartupPhase::ShutdownBeforeRestore(_) => event is ShutdownChecked,
        StartupPhase::AwaitSafety => event is SafetyChecked,
        StartupPhase::AwaitGeneration(_) => event is GenerationRead,
        StartupPhase::AwaitRestore(_) => event is RestoreFinished,
        StartupPhase::AwaitRelease(_) | StartupPhase::AwaitReleaseAfterFeature(_, _) => event is ReleaseFinished,
        StartupPhase::AwaitCompletion(_) => event is CompletionMarked,
        StartupPhase::Finished => false,
    }
}

/// One step of the transaction.
pub open spec fn step_spec<S>(run: StartupRun<S>, event: StartupEvent<S>) -> (StartupRun<S>, StartupAction<S>) {
    let next_generation = begin_generation::<S>((run.generation_round + 1) as u64);
    match (run.phase, event) {
        (StartupPhase::ShutdownBeforeSafety, StartupEvent::ShutdownChecked(down)) =>
            if down { finish(run, StartupOutcome::Failed(StartupFailure::ShuttingDown)) }
            else { moved(run, StartupPhase::AwaitSafety, StartupAction::InitializeSafety) },
        (StartupPhase::AwaitSafety, StartupEvent::SafetyChecked(result, safe)) => match result {
            Err(e) => finish(run, StartupOutcome::Failed(StartupFailure::Safety(e))),
            Ok(status) => if !safe {
                finish(run, StartupOutcome::Initialized { status, note: Some(RuntimeNote::SafetyCheckFailed) })
            } else {
                moved(run, StartupPhase::AwaitGeneration(status), StartupAction::ReadGeneration)
            },
        },
        (StartupPhase::AwaitGeneration(status), StartupEvent::GenerationRead(g)) =>
            begin_target(run.generation_round, g, 0, status),
        (StartupPhase::ShutdownBeforeRestore(status), StartupEvent::ShutdownChecked(down)) =>
            if down { finish(run, StartupOutcome::Failed(StartupFailure::ShuttingDown)) }
            else { moved(run, StartupPhase::AwaitRestore(status), StartupAction::Restore(run.generation)) },
        (StartupPhase::AwaitRestore(status), StartupEvent::RestoreFinished(result)) => match result {
            Ok(()) => moved(run, StartupPhase::AwaitRelease(status), StartupAction::ReleaseMute(run.generation)),
            Err(StartupRuntimeError::GenerationChanged(_)) => next_generation,
            Err(StartupRuntimeError::TargetChanged) =>
                begin_target(run.generation_round, run.generation, (run.target_round + 1) as u64, status),
            Err(StartupRuntimeError::Safety(e)) =>
                finish(run, StartupOutcome::Initialized { status, note: Some(RuntimeNote::Safety(e)) }),
            Err(StartupRuntimeError::Feature(e)) =>
                moved(run, StartupPhase::AwaitReleaseAfterFeature(status, e), StartupAction::ReleaseMute(run.generation)),
        },
        (StartupPhase::AwaitRelease(status), StartupEvent::ReleaseFinished(result)) => match result {
            Ok(released) => moved(run, StartupPhase::AwaitCompletion(released), StartupAction::MarkCompleted(run.generation)),
            Err(StartupRuntimeError::GenerationChanged(_)) => next_generation,
            Err(StartupRuntimeError::TargetChanged) =>
                begin_target(run.generation_round, run.generation, (run.target_round + 1) as u64, status),
            Err(StartupRuntimeError::Feature(e)) =>
                finish(run, StartupOutcome::Initialized { status, note: Some(RuntimeNote::MuteNotReleased(e)) }),
            Err(StartupRuntimeError::Safety(e)) =>
                finish(run, StartupOutcome::Initialized { status, note: Some(RuntimeNote::Safety(e)) }),
        },
        (StartupPhase::AwaitReleaseAfterFeature(status, error), StartupEvent::ReleaseFinished(result)) => match result {
            Ok(released) => finish(run, StartupOutcome::Initialized { status: released, note: Some(RuntimeNote::RuntimeMuted(error)) }),
            Err(StartupRuntimeError::GenerationChanged(_)) => next_generation,
            Err(StartupRuntimeError::TargetChanged) =>
                begin_target(run.generation_round, run.generation, (run.target_round + 1) as u64, status),
            Err(StartupRuntimeError::Feature(r)) =>
                finish(run, StartupOutcome::Initialized { status, note: Some(RuntimeNote::RuntimeMutedAndMuteNotReleased(error, r)) }),
            Err(StartupRuntimeError::Safety(r)) =>
                finish(run, StartupOutcome::Initialized { status, note: Some(RuntimeNote::RuntimeMutedAndMuteNotReleased(error, r)) }),
        },
        (StartupPhase::AwaitCompletion(released), StartupEvent::CompletionMarked(done)) =>
            if done { finish(run, StartupOutcome::Initialized { status: released, note: None }) }
            else { next_generation },
        _ => (run, StartupAction::CheckShutdown),
    }
}

/// The transaction's invariant: rounds stay within their limits.
pub open spec fn startup_wf<S>(run: StartupRun<S>) -> bool {
    &&& run.generation_round < GENERATION_RETRY_LIMIT || run.phase is Finished
    &&& run.generation_round <= GENERATION_RETRY_LIMIT
    &&& run.target_round <= TARGET_RETRY_LIMIT
    &&& match run.phase {
        StartupPhase::ShutdownBeforeRestore(_) | StartupPhase::AwaitRestore(_) | StartupPhase::AwaitRelease(_)
        | StartupPhase::AwaitReleaseAfterFeature(_, _) | StartupPhase::AwaitCompletion(_) => run.target_round < TARGET_RETRY_LIMIT,
        _ => true,
    }
}

/// Whether `event` is the host's answer to `action`: a shutdown check to a
/// check, a safety result to making the device safe, and so on.
pub open spec fn answers<S>(action: StartupAction<S>, event: StartupEvent<S>) -> bool {
    match action {
        StartupAction::CheckShutdown => event is ShutdownChecked,
        StartupAction::InitializeSafety => event is SafetyChecked,
        StartupAction::ReadGeneration => event is GenerationRead,
        StartupAction::Restore(_) => event is RestoreFinished,
        StartupAction::ReleaseMute(_) => event is ReleaseFinished,
        StartupAction::MarkCompleted(_) => event is CompletionMarked,
        StartupAction::Finish(_) => false,
    }
}

/// The transaction waits for exactly the answer to the action it asked for.
pub open spec fn awaits_answer<S>(run: StartupRun<S>, action: StartupAction<S>) -> bool {
    forall|event: StartupEvent<S>| #[trigger] accepts(run.phase, event) <==> answers(action, event)
}

impl<S> StartupRun<S> {
    /// Starts the transaction: check for shutdown first.
    pub fn new() -> (r: (StartupRun<S>, StartupAction<S>))
        ensures
            r == begin_generation::<S>(0),
            startup_wf(r.0),
            awaits_answer(r.0, r.1),
    {
        (StartupRun { generation_round: 0, target_round: 0, generation: 0, phase: StartupPhase::ShutdownBeforeSafety },
         StartupAction::CheckShutdown)
    }

    /// Whether the transaction is waiting for this kind of event.
    pub fn accepts(&self, event: &StartupEvent<S>) -> (r: bool)
        ensures
            r == accepts(self.phase, *event),
    {
        match (&self.phase, event) {
            (StartupPhase::ShutdownBeforeSafety, StartupEvent::ShutdownChecked(_)) => true,
            (StartupPhase::ShutdownBeforeRestore(_), StartupEvent::ShutdownChecked(_)) => true,
            (StartupPhase::AwaitSafety, StartupEvent::SafetyChecked(_, _)) => true,
            (StartupPhase::AwaitGeneration(_), StartupEvent::GenerationRead(_)) => true,
            (StartupPhase::AwaitRestore(_), StartupEvent::RestoreFinished(_)) => true,
            (StartupPhase::AwaitRelease(_), StartupEvent::ReleaseFinished(_)) => true,
            (StartupPhase::AwaitReleaseAfterFeature(_, _), StartupEvent::ReleaseFinished(_)) => true,
            (StartupPhase::AwaitCompletion(_), StartupEvent::CompletionMarked(_)) => true,
            _ => false,
        }
    }

    /// Takes the host's report and decides the next action; see
    /// `step_spec`.
    pub fn step(self, event: StartupEvent<S>) -> (r: (StartupRun<S>, StartupAction<S>))
        requires
            startup_wf(self),
            accepts(self.phase, event),
        ensures
            r == step_spec(self, event),
            startup_wf(r.0),
            awaits_answer(r.0, r.1),
    {
        let round = self.generation_round;
        let target = self.target_round;
        let generation = self.generation;
        match (self.phase, event) {
            (StartupPhase::ShutdownBeforeSafety, StartupEvent::ShutdownChecked(down)) => {
                if down {
                    (StartupRun { generation_round: round, target_round: target, generation, phase: StartupPhase::Finished },
                     StartupAction::Finish(StartupOutcome::Failed(StartupFailure::ShuttingDown)))
                } else {
                    (StartupRun { generation_round: round, target_round: target, generation, phase: StartupPhase::AwaitSafety },
                     StartupAction::InitializeSafety)
                }
            },
            (StartupPhase::AwaitSafety, StartupEvent::SafetyChecked(result, safe)) => match result {
                Err(e) => (StartupRun { generation_round: round, target_round: target, generation, phase: StartupPhase::Finished },
                    StartupAction::Finish(StartupOutcome::Failed(StartupFailure::Safety(e)))),
                Ok(status) => if !safe {
                    (StartupRun { generation_round: round, target_round: target, generation, phase: StartupPhase::Finished },
                     StartupAction::Finish(StartupOutcome::Initialized { status, note: Some(RuntimeNote::SafetyCheckFailed) }))
                } else {
                    (StartupRun { generation_round: round, target_round: target, generation, phase: StartupPhase::AwaitGeneration(status) },
                     StartupAction::ReadGeneration)
                },
            },
            (StartupPhase::AwaitGeneration(status), StartupEvent::GenerationRead(g)) => {
                (StartupRun { generation_round: round, target_round: 0, generation: g, phase: StartupPhase::ShutdownBeforeRestore(status) },
                 StartupAction::CheckShutdown)
            },
            (StartupPhase::ShutdownBeforeRestore(status), StartupEvent::ShutdownChecked(down)) => {
                if down {
                    (StartupRun { generation_round: round, target_round: target, generation, phase: StartupPhase::Finished },
                     StartupAction::Finish(StartupOutcome::Failed(StartupFailure::ShuttingDown)))
                } else {
                    (StartupRun { generation_round: round, target_round: target, generation, phase: StartupPhase::AwaitRestore(status) },
                     StartupAction::Restore(generation))
                }
            },
            (StartupPhase::AwaitRestore(status), StartupEvent::RestoreFinished(result)) => match result {
                Ok(()) => (StartupRun { generation_round: round, target_round: target, generation, phase: StartupPhase::AwaitRelease(status) },
                    StartupAction::ReleaseMute(generation)),
                Err(StartupRuntimeError::GenerationChanged(_)) => Self::begin_generation(round + 1),
                Err(StartupRuntimeError::TargetChanged) => Self::begin_target(round, generation, target + 1, status),
                Err(StartupRuntimeError::Safety(e)) =>
                    (StartupRun { generation_round: round, target_round: target, generation, phase: StartupPhase::Finished },
                     StartupAction::Finish(StartupOutcome::Initialized { status, note: Some(RuntimeNote::Safety(e)) })),
                Err(StartupRuntimeError::Feature(e)) =>
                    (StartupRun { generation_round: round, target_round: target, generation, phase: StartupPhase::AwaitReleaseAfterFeature(status, e) },
                     StartupAction::ReleaseMute(generation)),
            },
            (StartupPhase::AwaitRelease(status), StartupEvent::ReleaseFinished(result)) => match result {
                Ok(released) => (StartupRun { generation_round: round, target_round: target, generation, phase: StartupPhase::AwaitCompletion(released) },
                    StartupAction::MarkCompleted(generation)),
                Err(StartupRuntimeError::GenerationChanged(_)) => Self::begin_generation(round + 1),
                Err(StartupRuntimeError::TargetChanged) => Self::begin_target(round, generation, target + 1, status),
                Err(StartupRuntimeError::Feature(e)) =>
                    (StartupRun { generation_round: round, target_round: target, generation, phase: StartupPhase::Finished },
                     StartupAction::Finish(StartupOutcome::Initialized { status, note: Some(RuntimeNote::MuteNotReleased(e)) })),
                Err(StartupRuntimeError::Safety(e)) =>
                    (StartupRun { generation_round: round, target_round: target, generation, phase: StartupPhase::Finished },
                     StartupAction::Finish(StartupOutcome::Initialized { status, note: Some(RuntimeNote::Safety(e)) })),
            },
            (StartupPhase::AwaitReleaseAfterFeature(status, error), StartupEvent::ReleaseFinished(result)) => match result {
                Ok(released) => (StartupRun { generation_round: round, target_round: target, generation, phase: StartupPhase::Finished },
                    StartupAction::Finish(StartupOutcome::Initialized { status: released, note: Some(RuntimeNote::RuntimeMuted(error)) })),
                Err(StartupRuntimeError::GenerationChanged(_)) => Self::begin_generation(round + 1),
                Err(StartupRuntimeError::TargetChanged) => Self::begin_target(round, generation, target + 1, status),
                Err(StartupRuntimeError::Feature(r)) =>
                    (StartupRun { generation_round: round, target_round: target, generation, phase: StartupPhase::Finished },
                     StartupAction::Finish(StartupOutcome::Initialized { status, note: Some(RuntimeNote::RuntimeMutedAndMuteNotReleased(error, r)) })),
                Err(StartupRuntimeError::Safety(r)) =>
                    (StartupRun { generation_round: round, target_round: target, generation, phase: StartupPhase::Finished },
                     StartupAction::Finish(StartupOutcome::Initialized { status, note: Some(RuntimeNote::RuntimeMutedAndMuteNotReleased(error, r)) })),
            },
            (StartupPhase::AwaitCompletion(released), StartupEvent::CompletionMarked(done)) => {
                if done {
                    (StartupRun { generation_round: round, target_round: target, generation, phase: StartupPhase::Finished },
                     StartupAction::Finish(StartupOutcome::Initialized { status: released, note: None }))
                } else {
                    Self::begin_generation(round + 1)
                }
            },
            (phase, _) => (StartupRun { generation_round: round, target_round: target, generation, phase }, StartupAction::CheckShutdown),
        }
    }

    fn begin_generation(round: u64) -> (r: (StartupRun<S>, StartupAction<S>))
        requires
            round <= GENERATION_RETRY_LIMIT,
        ensures
            r == begin_generation::<S>(round),
            startup_wf(r.0),
    {
        if round >= GENERATION_RETRY_LIMIT {
            (StartupRun { generation_round: round, target_round: 0, generation: 0, phase: StartupPhase::Finished },
             StartupAction::Finish(StartupOutcome::Failed(StartupFailure::NotConverged)))
        } else {
            (StartupRun { generation_round: round, target_round: 0, generation: 0, phase: StartupPhase::ShutdownBeforeSafety },
             StartupAction::CheckShutdown)
        }
    }

    fn begin_target(round: u64, generation: u64, target: u64, status: S) -> (r: (StartupRun<S>, StartupAction<S>))
        requires
            round < GENERATION_RETRY_LIMIT,
            target <= TARGET_RETRY_LIMIT,
        ensures
            r == begin_target(round, generation, target, status),
            startup_wf(r.0),
    {
        if target >= TARGET_RETRY_LIMIT {
            (StartupRun { generation_round: round, target_round: target, generation, phase: StartupPhase::Finished },
             StartupAction::Finish(StartupOutcome::Initialized { status, note: Some(RuntimeNote::TargetChangedRepeatedly) }))
        } else {
            (StartupRun { generation_round: round, target_round: target, generation, phase: StartupPhase::ShutdownBeforeRestore(status) },
             StartupAction::CheckShutdown)
        }
    }
}

/// How far the transaction may still go: every step that does not finish
/// lowers it.
pub open spec fn startup_measure<S>(run: StartupRun<S>) -> int {
    let target_part = (TARGET_RETRY_LIMIT - run.target_round) * 10;
    let rank: int = match run.phase {
        StartupPhase::ShutdownBeforeSafety => 50,
        StartupPhase::AwaitSafety => 49,
        StartupPhase::AwaitGeneration(_) => 48,
        StartupPhase::ShutdownBeforeRestore(_) => target_part + 5,
        StartupPhase::AwaitRestore(_) => target_part + 4,
        StartupPhase::AwaitRelease(_) => target_part + 3,
        StartupPhase::AwaitReleaseAfterFeature(_, _) => target_part + 3,
        StartupPhase::AwaitCompletion(_) => target_part + 2,
        StartupPhase::Finished => 0,
    };
    if run.phase is Finished { 0 } else { (GENERATION_RETRY_LIMIT - run.generation_round) * 100 + rank }
}

/// Startup always ends: every step either finishes the transaction or
/// strictly lowers `startup_measure`, which is never negative; so at most
/// three generations and three restore targets per generation are tried.
pub proof fn law_startup_terminates<S>(run: StartupRun<S>, event: StartupEvent<S>)
    requires
        startup_wf(run),
        accepts(run.phase, event),
    ensures
        startup_measure(run) >= 0,
        ({
            let (next, action) = step_spec(run, event);
            action is Finish || startup_measure(next) < startup_measure(run)
        }),
        ({
            let (next, action) = step_spec(run, event);
            action is Finish <==> next.phase is Finished
        }),
{
}

/// The output is unmuted for good only on the path the transaction was
/// built for: a clean startup (no note) is only ever reported right after
/// the sidecar accepted completion, completion is only asked for right
/// after the mute was released, and releasing is only asked for right after
/// a restore on the same generation ended (successfully, or with a feature
/// failure that keeps the runtime muted).
pub proof fn law_clean_startup_only_after_release<S>(run: StartupRun<S>, event: StartupEvent<S>)
    requires
        startup_wf(run),
        accepts(run.phase, event),
    ensures
        ({
            let (next, action) = step_spec(run, event);
            &&& (action matches StartupAction::Finish(StartupOutcome::Initialized { note: None, .. })
                ==> (run.phase is AwaitCompletion && event == StartupEvent::<S>::CompletionMarked(true)))
            &&& (action is MarkCompleted ==> (run.phase is AwaitRelease && event matches StartupEvent::ReleaseFinished(Ok(_))))
            &&& (action matches StartupAction::ReleaseMute(g) ==> (run.phase is AwaitRestore && g == run.generation
                && (event matches StartupEvent::RestoreFinished(r) && (r is Ok || r matches Err(StartupRuntimeError::Feature(_))))))
        }),
{
}

} // verus!
