//! Scheduling of runtime graph projections.
//!
//! Canonical session changes are submitted as projection targets; only the
//! newest target is kept, a worker prepares and commits it against the native
//! runtime, and the active projection never moves back to an older canonical
//! sequence. A change of native process generation or of the audio device
//! environment invalidates everything prepared for the previous one.
//!
//! This module holds the state and every decision; the worker thread, the
//! clock and the native calls belong to the caller, which reports their
//! outcomes back through these transitions. The snapshot payload `S` is
//! carried through untouched.

use vstd::prelude::*;
use crate::transport::ProjectionKey;
use crate::text::{concat2, decimal, to_string, u64_to_decimal, append_str};

verus! {

broadcast use vstd::string::group_string_axioms;

/// Saturating successor of a counter.
pub open spec fn sat_inc(x: u64) -> u64 {
    if x == u64::MAX { u64::MAX } else { (x + 1) as u64 }
}

/// Lifecycle of the current projection request.
#[derive(Clone, Copy, Debug, PartialEq, Eq, Structural)]
pub enum RuntimeProjectionState {
    Idle,
    Queued,
    Preparing,
    Active,
    Failed,
}

/// Published status of the projection pipeline.
#[derive(Clone, Debug, PartialEq, Eq)]
pub struct RuntimeProjectionStatus {
    pub state: RuntimeProjectionState,
    pub operation_id: u64,
    pub running_operation_id: Option<u64>,
    pub target_projection_sequence: Option<u64>,
    pub target_session_revision: Option<u64>,
    pub prepared_session_revision: Option<u64>,
    pub active_projection_sequence: Option<u64>,
    pub active_session_revision: Option<u64>,
    pub runtime_generation: u64,
    pub audio_environment_revision: u64,
    pub target_audio_environment_revision: Option<u64>,
    pub prepared_audio_environment_revision: Option<u64>,
    pub active_audio_environment_revision: Option<u64>,
    pub queued_at_ms: Option<u64>,
    pub started_at_ms: Option<u64>,
    pub completed_at_ms: Option<u64>,
    pub last_native_response_at_ms: Option<u64>,
    pub discarded_preparation_count: u64,
    pub last_error: Option<String>,
}

impl RuntimeProjectionStatus {
    /// The idle status of a fresh pipeline on `generation`.
    pub open spec fn initial_spec(generation: u64) -> RuntimeProjectionStatus {
        RuntimeProjectionStatus {
            state: RuntimeProjectionState::Idle,
            operation_id: 0,
            running_operation_id: None,
            target_projection_sequence: None,
            target_session_revision: None,
            prepared_session_revision: None,
            active_projection_sequence: None,
            active_session_revision: None,
            runtime_generation: generation,
            audio_environment_revision: 0,
            target_audio_environment_revision: None,
            prepared_audio_environment_revision: None,
            active_audio_environment_revision: None,
            queued_at_ms: None,
            started_at_ms: None,
            completed_at_ms: None,
            last_native_response_at_ms: None,
            discarded_preparation_count: 0,
            last_error: None,
        }
    }

    /// The idle status of a fresh pipeline on `generation`.
    pub fn initial(generation: u64) -> (s: RuntimeProjectionStatus)
        ensures
            s == Self::initial_spec(generation),
    {
        RuntimeProjectionStatus {
            state: RuntimeProjectionState::Idle,
            operation_id: 0,
            running_operation_id: None,
            target_projection_sequence: None,
            target_session_revision: None,
            prepared_session_revision: None,
            active_projection_sequence: None,
            active_session_revision: None,
            runtime_generation: generation,
            audio_environment_revision: 0,
            target_audio_environment_revision: None,
            prepared_audio_environment_revision: None,
            active_audio_environment_revision: None,
            queued_at_ms: None,
            started_at_ms: None,
            completed_at_ms: None,
            last_native_response_at_ms: None,
            discarded_preparation_count: 0,
            last_error: None,
        }
    }
}

/// A queued projection request.
#[verifier::reject_recursive_types(S)]
pub struct RuntimeTarget<S> {
    pub operation_id: u64,
    pub key: ProjectionKey,
    pub runtime_generation: u64,
    pub audio_environment_revision: u64,
    pub snapshot: S,
    pub canonical: bool,
}

/// The graph currently active in the native runtime.
#[derive(Clone, Copy, Debug, PartialEq, Eq, Structural)]
pub struct ActiveProjection {
    pub runtime_generation: u64,
    pub audio_environment_revision: u64,
    pub key: ProjectionKey,
    pub canonical: bool,
}

/// The identity of a target taken by the worker (the payload is with the
/// worker).
#[derive(Clone, Copy, Debug, PartialEq, Eq, Structural)]
pub struct TargetIdentity {
    pub operation_id: u64,
    pub key: ProjectionKey,
    pub runtime_generation: u64,
    pub audio_environment_revision: u64,
    pub canonical: bool,
}

/// Answer to a projection submission.
#[derive(Clone, Copy, Debug, PartialEq, Eq, Structural)]
pub enum SubmissionResult {
    Accepted { operation_id: u64, key: ProjectionKey },
    AlreadyActive { operation_id: u64, key: ProjectionKey },
    FollowingExisting { operation_id: u64, key: ProjectionKey },
    Superseded { desired_key: ProjectionKey },
}

/// Errors of the projection and transport boundary.
#[derive(Clone, Debug, PartialEq, Eq)]
pub enum RuntimeError {
    RuntimeUnavailable(String),
    Timeout { message: String },
    TransportLost { message: String },
    GenerationChanged { expected: u64, actual: u64 },
    Superseded { message: String },
    Cancelled { message: String },
    NativeRejected(String),
    ShuttingDown,
    Internal(String),
}

/// Whether a Play may be requested with the projection in `state`: not while
/// the active graph failed.
pub fn play_admission(state: RuntimeProjectionState) -> (r: Result<(), RuntimeError>)
    ensures
        r is Err <==> state == RuntimeProjectionState::Failed,
        r matches Err(e) ==> e matches RuntimeError::NativeRejected(m) && m@ == "The active Arrangement Graph is unavailable."@,
{
    if state == RuntimeProjectionState::Failed {
        Err(RuntimeError::NativeRejected(to_string("The active Arrangement Graph is unavailable.")))
    } else {
        Ok(())
    }
}

/// Whole state of the projection pipeline.
#[verifier::reject_recursive_types(S)]
pub struct ProjectionState<S> {
    pub next_operation_id: u64,
    pub latest_target: Option<RuntimeTarget<S>>,
    pub desired_key: Option<ProjectionKey>,
    pub running_operation_id: Option<u64>,
    pub active_projection: Option<ActiveProjection>,
    pub stop_requested: bool,
    pub audio_environment_revision: u64,
    pub status: RuntimeProjectionStatus,
}

/// State after observing native generation `g`: a new generation drops the
/// active graph, bumps the environment revision, drops a target queued for
/// another generation, and idles a pipeline with nothing to do.
pub open spec fn observe_spec<S>(s: ProjectionState<S>, g: u64) -> ProjectionState<S> {
    if s.status.runtime_generation == g {
        s
    } else {
        let env = sat_inc(s.audio_environment_revision);
        let drop_target = s.latest_target is Some && s.latest_target->0.runtime_generation != g;
        let latest = if drop_target { None } else { s.latest_target };
        let st1 = RuntimeProjectionStatus {
            active_projection_sequence: None,
            active_session_revision: None,
            active_audio_environment_revision: None,
            runtime_generation: g,
            audio_environment_revision: env,
            ..s.status
        };
        let st2 = if drop_target {
            RuntimeProjectionStatus {
                target_projection_sequence: None,
                target_session_revision: None,
                target_audio_environment_revision: None,
                ..st1
            }
        } else {
            st1
        };
        let st3 = if s.running_operation_id is None && latest is None {
            RuntimeProjectionStatus { state: RuntimeProjectionState::Idle, ..st2 }
        } else {
            st2
        };
        ProjectionState {
            latest_target: latest,
            desired_key: if drop_target { None } else { s.desired_key },
            active_projection: None,
            audio_environment_revision: env,
            status: st3,
            ..s
        }
    }
}

/// The state a submission is decided on: generation observed, a failed
/// idle pipeline reset for a canonical request, and a non-canonical active
/// graph dropped when a canonical request arrives with nothing in flight.
pub open spec fn submission_base<S>(s: ProjectionState<S>, g: u64, canonical: bool) -> ProjectionState<S> {
    let a = observe_spec(s, g);
    let b = if canonical && a.status.state == RuntimeProjectionState::Failed && a.running_operation_id is None {
        ProjectionState {
            desired_key: None,
            latest_target: None,
            status: RuntimeProjectionStatus { state: RuntimeProjectionState::Idle, last_error: None, ..a.status },
            ..a
        }
    } else {
        a
    };
    if canonical && b.running_operation_id is None && b.latest_target is None
        && b.active_projection is Some && !b.active_projection->0.canonical {
        ProjectionState {
            desired_key: None,
            active_projection: None,
            status: RuntimeProjectionStatus {
                active_projection_sequence: None,
                active_session_revision: None,
                active_audio_environment_revision: None,
                ..b.status
            },
            ..b
        }
    } else {
        b
    }
}

/// Whether the active graph is exactly `key` on `g` and the current
/// environment.
pub open spec fn active_is<S>(s: ProjectionState<S>, g: u64, key: ProjectionKey) -> bool {
    s.active_projection is Some
        && s.active_projection->0.runtime_generation == g
        && s.active_projection->0.audio_environment_revision == s.audio_environment_revision
        && s.active_projection->0.key == key
}

/// The status published for a newly queued target.
pub open spec fn queued_status<S>(b: ProjectionState<S>, op: u64, key: ProjectionKey, g: u64, now: u64) -> RuntimeProjectionStatus {
    RuntimeProjectionStatus {
        state: RuntimeProjectionState::Queued,
        operation_id: op,
        running_operation_id: b.running_operation_id,
        target_projection_sequence: Some(key.sequence),
        target_session_revision: Some(key.session_revision),
        prepared_session_revision: None,
        active_projection_sequence: match b.active_projection { Some(a) => Some(a.key.sequence), None => None },
        active_session_revision: match b.active_projection { Some(a) => Some(a.key.session_revision), None => None },
        runtime_generation: g,
        audio_environment_revision: b.audio_environment_revision,
        target_audio_environment_revision: Some(b.audio_environment_revision),
        prepared_audio_environment_revision: None,
        active_audio_environment_revision: match b.active_projection { Some(a) => Some(a.audio_environment_revision), None => None },
        queued_at_ms: Some(now),
        started_at_ms: None,
        completed_at_ms: None,
        last_native_response_at_ms: None,
        discarded_preparation_count: 0,
        last_error: None,
    }
}

/// The state-level outcome of an idle/active pipeline's status word.
pub open spec fn settled_state<S>(s: ProjectionState<S>) -> RuntimeProjectionState {
    if s.latest_target is Some {
        RuntimeProjectionState::Queued
    } else if s.active_projection is Some {
        RuntimeProjectionState::Active
    } else {
        RuntimeProjectionState::Idle
    }
}

/// The identity of a queued target.
pub open spec fn identity_of<S>(t: RuntimeTarget<S>) -> TargetIdentity {
    TargetIdentity {
        operation_id: t.operation_id,
        key: t.key,
        runtime_generation: t.runtime_generation,
        audio_environment_revision: t.audio_environment_revision,
        canonical: t.canonical,
    }
}

/// Whether `key` is ready: the active graph on `g` and the current
/// environment, with nothing queued or running.
pub open spec fn ready_spec<S>(s: ProjectionState<S>, g: u64, key: ProjectionKey) -> bool {
    s.latest_target is None && s.running_operation_id is None && active_is(s, g, key)
}

/// State after an audio-environment change on generation `g`.
pub open spec fn advance_spec<S>(s: ProjectionState<S>, g: u64) -> ProjectionState<S> {
    let o = observe_spec(s, g);
    let env = sat_inc(o.audio_environment_revision);
    ProjectionState {
        latest_target: None,
        desired_key: None,
        active_projection: None,
        audio_environment_revision: env,
        status: RuntimeProjectionStatus {
            state: if o.running_operation_id is Some { RuntimeProjectionState::Preparing } else { RuntimeProjectionState::Idle },
            running_operation_id: o.running_operation_id,
            target_projection_sequence: None,
            target_session_revision: None,
            prepared_session_revision: None,
            active_projection_sequence: None,
            active_session_revision: None,
            runtime_generation: g,
            audio_environment_revision: env,
            target_audio_environment_revision: None,
            prepared_audio_environment_revision: None,
            active_audio_environment_revision: None,
            queued_at_ms: None,
            started_at_ms: None,
            completed_at_ms: None,
            last_native_response_at_ms: None,
            last_error: None,
            ..o.status
        },
        ..o
    }
}

/// Whether a prepared target may be committed.
pub open spec fn publish_spec<S>(s: ProjectionState<S>, t: TargetIdentity, g: u64) -> bool {
    &&& s.status.operation_id == t.operation_id
    &&& s.latest_target is None
    &&& !s.stop_requested
    &&& t.runtime_generation == g
    &&& t.audio_environment_revision == s.audio_environment_revision
    &&& (s.active_projection is None || t.key.sequence >= s.active_projection->0.key.sequence)
    &&& (s.desired_key is None || t.key.sequence >= s.desired_key->0.sequence)
}

fn clone_status(s: &RuntimeProjectionStatus) -> (r: RuntimeProjectionStatus)
    ensures
        r == *s,
{
    RuntimeProjectionStatus {
        state: s.state,
        operation_id: s.operation_id,
        running_operation_id: s.running_operation_id,
        target_projection_sequence: s.target_projection_sequence,
        target_session_revision: s.target_session_revision,
        prepared_session_revision: s.prepared_session_revision,
        active_projection_sequence: s.active_projection_sequence,
        active_session_revision: s.active_session_revision,
        runtime_generation: s.runtime_generation,
        audio_environment_revision: s.audio_environment_revision,
        target_audio_environment_revision: s.target_audio_environment_revision,
        prepared_audio_environment_revision: s.prepared_audio_environment_revision,
        active_audio_environment_revision: s.active_audio_environment_revision,
        queued_at_ms: s.queued_at_ms,
        started_at_ms: s.started_at_ms,
        completed_at_ms: s.completed_at_ms,
        last_native_response_at_ms: s.last_native_response_at_ms,
        discarded_preparation_count: s.discarded_preparation_count,
        last_error: match &s.last_error {
            Some(e) => Some(e.clone()),
            None => None,
        },
    }
}

/// The text of a runtime error.
pub open spec fn error_message(e: RuntimeError) -> Seq<char> {
    match e {
        RuntimeError::RuntimeUnavailable(m) => "runtime is unavailable: "@ + m@,
        RuntimeError::Timeout { message } => "runtime operation timed out: "@ + message@,
        RuntimeError::TransportLost { message } => "runtime transport was lost: "@ + message@,
        RuntimeError::GenerationChanged { expected, actual } =>
            "runtime generation changed (expected "@ + decimal(expected as nat) + ", actual "@ + decimal(actual as nat) + ")"@,
        RuntimeError::Superseded { message } => "runtime projection was superseded: "@ + message@,
        RuntimeError::Cancelled { message } => "runtime operation was cancelled: "@ + message@,
        RuntimeError::NativeRejected(m) => "native runtime rejected the operation: "@ + m@,
        RuntimeError::ShuttingDown => "runtime is shutting down"@,
        RuntimeError::Internal(m) => "runtime state is unavailable: "@ + m@,
    }
}

impl RuntimeError {
    /// The error text.
    pub fn message(&self) -> (m: String)
        ensures
            m@ == error_message(*self),
    {
        match self {
            RuntimeError::RuntimeUnavailable(m) => concat2("runtime is unavailable: ", m.as_str()),
            RuntimeError::Timeout { message } => concat2("runtime operation timed out: ", message.as_str()),
            RuntimeError::TransportLost { message } => concat2("runtime transport was lost: ", message.as_str()),
            RuntimeError::GenerationChanged { expected, actual } => {
                let mut m = to_string("runtime generation changed (expected ");
                let e = u64_to_decimal(*expected);
                append_str(&mut m, e.as_str());
                append_str(&mut m, ", actual ");
                let a = u64_to_decimal(*actual);
                append_str(&mut m, a.as_str());
                append_str(&mut m, ")");
                m
            },
            RuntimeError::Superseded { message } => concat2("runtime projection was superseded: ", message.as_str()),
            RuntimeError::Cancelled { message } => concat2("runtime operation was cancelled: ", message.as_str()),
            RuntimeError::NativeRejected(m) => concat2("native runtime rejected the operation: ", m.as_str()),
            RuntimeError::ShuttingDown => to_string("runtime is shutting down"),
            RuntimeError::Internal(m) => concat2("runtime state is unavailable: ", m.as_str()),
        }
    }
}

/// State after the worker ends an operation (see
/// [`ProjectionState::complete_operation`]).
pub open spec fn complete_spec<S>(
    s: ProjectionState<S>,
    t: TargetIdentity,
    prepare_generation: u64,
    current: u64,
    result: Result<(), RuntimeError>,
    now: u64,
    text: String,
) -> ProjectionState<S> {
    let o = if current != t.runtime_generation { observe_spec(s, current) } else { s };
    let r = if prepare_generation == current {
        result
    } else {
        Err(RuntimeError::GenerationChanged { expected: prepare_generation, actual: current })
    };
    let identity_is_current = t.runtime_generation == current && t.audio_environment_revision == o.audio_environment_revision;
    let o1 = ProjectionState {
        running_operation_id: None,
        status: RuntimeProjectionStatus { running_operation_id: None, ..o.status },
        ..o
    };
    match r {
        Ok(_) => if identity_is_current {
            let promote = (o1.active_projection is None || t.key.sequence >= o1.active_projection->0.key.sequence)
                && (o1.desired_key is None || t.key.sequence >= o1.desired_key->0.sequence);
            let active = if promote {
                Some(ActiveProjection {
                    runtime_generation: current,
                    audio_environment_revision: t.audio_environment_revision,
                    key: t.key,
                    canonical: t.canonical,
                })
            } else {
                o1.active_projection
            };
            let o2 = ProjectionState { active_projection: active, ..o1 };
            if o1.status.operation_id == t.operation_id {
                ProjectionState {
                    status: RuntimeProjectionStatus {
                        active_projection_sequence: match active { Some(a) => Some(a.key.sequence), None => None },
                        active_session_revision: match active { Some(a) => Some(a.key.session_revision), None => None },
                        active_audio_environment_revision: match active { Some(a) => Some(a.audio_environment_revision), None => None },
                        runtime_generation: current,
                        audio_environment_revision: o1.audio_environment_revision,
                        prepared_session_revision: None,
                        prepared_audio_environment_revision: None,
                        completed_at_ms: Some(now),
                        last_error: None,
                        state: settled_state(o2),
                        ..o1.status
                    },
                    ..o2
                }
            } else {
                o2
            }
        } else {
            ProjectionState {
                status: RuntimeProjectionStatus {
                    prepared_session_revision: None,
                    prepared_audio_environment_revision: None,
                    state: settled_state(o1),
                    ..o1.status
                },
                ..o1
            }
        },
        Err(e) => if o1.status.operation_id == t.operation_id && identity_is_current {
            ProjectionState {
                status: RuntimeProjectionStatus {
                    state: RuntimeProjectionState::Failed,
                    runtime_generation: current,
                    audio_environment_revision: o1.audio_environment_revision,
                    completed_at_ms: Some(now),
                    prepared_session_revision: None,
                    prepared_audio_environment_revision: None,
                    last_error: Some(text),
                    ..o1.status
                },
                ..o1
            }
        } else {
            o1
        },
    }
}

/// The error an operation ends with: the reported one, or a generation
/// change between prepare and completion.
pub open spec fn effective_result(t: TargetIdentity, prepare_generation: u64, current: u64, result: Result<(), RuntimeError>) -> Result<(), RuntimeError> {
    if prepare_generation == current {
        result
    } else {
        Err(RuntimeError::GenerationChanged { expected: prepare_generation, actual: current })
    }
}

/// The text recorded for an operation's outcome (empty on success).
pub open spec fn outcome_text(r: Result<(), RuntimeError>) -> Seq<char> {
    match r {
        Ok(_) => Seq::empty(),
        Err(e) => error_message(e),
    }
}

/// The decision for a waiter.
pub open spec fn wait_spec<S>(s: ProjectionState<S>, op: u64, key: ProjectionKey, g: u64, w: WaitOutcome) -> bool {
    if s.status.operation_id != op {
        w matches WaitOutcome::Failed(RuntimeError::Superseded { message })
            && message@ == "Runtime operation "@ + decimal(op as nat) + " was superseded by a newer projection."@
    } else if s.running_operation_id is None && s.latest_target is None {
        let requested_active = s.active_projection is Some && s.active_projection->0.runtime_generation == g
            && s.active_projection->0.key == key;
        if s.status.state == RuntimeProjectionState::Active && requested_active {
            w == WaitOutcome::Activated(s.status)
        } else if s.status.state == RuntimeProjectionState::Failed {
            w matches WaitOutcome::Failed(RuntimeError::NativeRejected(m))
                && m@ == match s.status.last_error { Some(e) => e@, None => "Runtime projection failed."@ }
        } else if s.status.state == RuntimeProjectionState::Active {
            w matches WaitOutcome::Failed(RuntimeError::Internal(m))
                && m@ == "Runtime operation "@ + decimal(op as nat) + " completed without activating the requested projection (sequence "@ + decimal(key.sequence as nat) + ")."@
        } else {
            w == WaitOutcome::Pending
        }
    } else {
        w == WaitOutcome::Pending
    }
}

/// What the worker should do next.
pub enum WorkerStep<S> {
    /// Shutdown was requested.
    Exit,
    /// Nothing is queued; wait for a submission.
    Wait,
    /// Prepare this target.
    Run(TargetIdentity, S),
}

/// How a waiter for one operation should proceed.
#[derive(Clone, Debug, PartialEq, Eq)]
pub enum WaitOutcome {
    /// The requested projection is active.
    Activated(RuntimeProjectionStatus),
    /// The pipeline ended otherwise; the operation failed with this error.
    Failed(RuntimeError),
    /// Keep waiting.
    Pending,
}

fn opt_seq(a: Option<ActiveProjection>) -> (r: Option<u64>)
    ensures
        r == match a { Some(a) => Some(a.key.sequence), None => None::<u64> },
{
    match a {
        Some(a) => Some(a.key.sequence),
        None => None,
    }
}

fn opt_rev(a: Option<ActiveProjection>) -> (r: Option<u64>)
    ensures
        r == match a { Some(a) => Some(a.key.session_revision), None => None::<u64> },
{
    match a {
        Some(a) => Some(a.key.session_revision),
        None => None,
    }
}

fn opt_env(a: Option<ActiveProjection>) -> (r: Option<u64>)
    ensures
        r == match a { Some(a) => Some(a.audio_environment_revision), None => None::<u64> },
{
    match a {
        Some(a) => Some(a.audio_environment_revision),
        None => None,
    }
}

impl<S> ProjectionState<S> {
    /// A fresh pipeline on native generation `generation`.
    pub fn new(generation: u64) -> (s: ProjectionState<S>)
        ensures
            s.next_operation_id == 0,
            s.latest_target is None,
            s.desired_key is None,
            s.running_operation_id is None,
            s.active_projection is None,
            !s.stop_requested,
            s.audio_environment_revision == 0,
            s.status == RuntimeProjectionStatus::initial_spec(generation),
    {
        ProjectionState {
            next_operation_id: 0,
            latest_target: None,
            desired_key: None,
            running_operation_id: None,
            active_projection: None,
            stop_requested: false,
            audio_environment_revision: 0,
            status: RuntimeProjectionStatus::initial(generation),
        }
    }

    /// Accounts for the native generation now reported by the runtime.
    pub fn observe_generation(&mut self, generation: u64)
        ensures
            *final(self) == observe_spec(*old(self), generation),
    {
        if self.status.runtime_generation == generation {
            return;
        }
        self.active_projection = None;
        self.status.active_projection_sequence = None;
        self.status.active_session_revision = None;
        self.status.active_audio_environment_revision = None;
        self.audio_environment_revision = self.audio_environment_revision.saturating_add(1);
        self.status.runtime_generation = generation;
        self.status.audio_environment_revision = self.audio_environment_revision;
        let drop_target = match &self.latest_target {
            Some(t) => t.runtime_generation != generation,
            None => false,
        };
        if drop_target {
            self.latest_target = None;
            self.desired_key = None;
            self.status.target_projection_sequence = None;
            self.status.target_session_revision = None;
            self.status.target_audio_environment_revision = None;
        }
        if self.running_operation_id.is_none() && self.latest_target.is_none() {
            self.status.state = RuntimeProjectionState::Idle;
        }
    }

    /// Submits `snapshot` for projection `key` on native generation
    /// `generation` at time `now_ms`.
    ///
    /// A request older than the desired sequence is superseded; a request
    /// for the graph that is already active, or already queued or running,
    /// joins it (a canonical resubmission of the queued target replaces its
    /// payload); anything else becomes the single queued target with a fresh
    /// operation id.
    pub fn enqueue(&mut self, snapshot: S, key: ProjectionKey, canonical: bool, generation: u64, now_ms: u64) -> (res: SubmissionResult)
        ensures
            final(self).next_operation_id >= old(self).next_operation_id,
            old(self).next_operation_id < u64::MAX && res is Accepted ==> final(self).next_operation_id == old(self).next_operation_id + 1,
            ({
                let b = submission_base(*old(self), generation, canonical);
                if b.desired_key is Some && key.sequence < b.desired_key->0.sequence {
                    &&& res == SubmissionResult::Superseded { desired_key: b.desired_key->0 }
                    &&& *final(self) == b
                } else if b.desired_key == Some(key) && b.latest_target is None && b.running_operation_id is None
                    && active_is(b, generation, key) {
                    &&& res == SubmissionResult::AlreadyActive { operation_id: b.status.operation_id, key }
                    &&& *final(self) == b
                } else if b.desired_key == Some(key) && b.latest_target is Some && b.latest_target->0.key == key {
                    &&& res == SubmissionResult::FollowingExisting { operation_id: b.latest_target->0.operation_id, key }
                    &&& if canonical {
                        *final(self) == ProjectionState {
                            latest_target: Some(RuntimeTarget { snapshot, canonical: true, ..b.latest_target->0 }),
                            ..b
                        }
                    } else {
                        *final(self) == b
                    }
                } else if b.desired_key == Some(key) && b.running_operation_id is Some {
                    &&& res == SubmissionResult::FollowingExisting { operation_id: b.status.operation_id, key }
                    &&& *final(self) == b
                } else {
                    let op = sat_inc(b.next_operation_id);
                    &&& res == SubmissionResult::Accepted { operation_id: op, key }
                    &&& *final(self) == ProjectionState {
                        next_operation_id: op,
                        desired_key: Some(key),
                        latest_target: Some(RuntimeTarget {
                            operation_id: op,
                            key,
                            runtime_generation: generation,
                            audio_environment_revision: b.audio_environment_revision,
                            snapshot,
                            canonical,
                        }),
                        status: queued_status(b, op, key, generation, now_ms),
                        ..b
                    }
                }
            }),
    {
        self.observe_generation(generation);
        let env = self.audio_environment_revision;
        if canonical && self.status.state == RuntimeProjectionState::Failed && self.running_operation_id.is_none() {
            self.desired_key = None;
            self.latest_target = None;
            self.status.state = RuntimeProjectionState::Idle;
            self.status.last_error = None;
        }
        let noncanonical_active = match self.active_projection {
            Some(a) => !a.canonical,
            None => false,
        };
        if canonical && self.running_operation_id.is_none() && self.latest_target.is_none() && noncanonical_active {
            self.desired_key = None;
            self.active_projection = None;
            self.status.active_projection_sequence = None;
            self.status.active_session_revision = None;
            self.status.active_audio_environment_revision = None;
        }
        if let Some(desired) = self.desired_key {
            if key.sequence < desired.sequence {
                return SubmissionResult::Superseded { desired_key: desired };
            }
        }
        let desired_is_key = match self.desired_key {
            Some(d) => d == key,
            None => false,
        };
        let active_matches = match self.active_projection {
            Some(a) => a.runtime_generation == generation && a.audio_environment_revision == env && a.key == key,
            None => false,
        };
        if desired_is_key && self.latest_target.is_none() && self.running_operation_id.is_none() && active_matches {
            return SubmissionResult::AlreadyActive { operation_id: self.status.operation_id, key };
        }
        if desired_is_key {
            let existing = match &self.latest_target {
                Some(t) => if t.key == key { Some(t.operation_id) } else { None },
                None => None,
            };
            if let Some(operation_id) = existing {
                if canonical {
                    let t = self.latest_target.take().unwrap();
                    self.latest_target = Some(RuntimeTarget {
                        operation_id: t.operation_id,
                        key: t.key,
                        runtime_generation: t.runtime_generation,
                        audio_environment_revision: t.audio_environment_revision,
                        snapshot,
                        canonical: true,
                    });
                }
                return SubmissionResult::FollowingExisting { operation_id, key };
            }
            if self.running_operation_id.is_some() {
                return SubmissionResult::FollowingExisting { operation_id: self.status.operation_id, key };
            }
        }
        self.next_operation_id = self.next_operation_id.saturating_add(1);
        let operation_id = self.next_operation_id;
        self.desired_key = Some(key);
        self.latest_target = Some(RuntimeTarget {
            operation_id,
            key,
            runtime_generation: generation,
            audio_environment_revision: env,
            snapshot,
            canonical,
        });
        self.status = RuntimeProjectionStatus {
            state: RuntimeProjectionState::Queued,
            operation_id,
            running_operation_id: self.running_operation_id,
            target_projection_sequence: Some(key.sequence),
            target_session_revision: Some(key.session_revision),
            prepared_session_revision: None,
            active_projection_sequence: opt_seq(self.active_projection),
            active_session_revision: opt_rev(self.active_projection),
            runtime_generation: generation,
            audio_environment_revision: env,
            target_audio_environment_revision: Some(env),
            prepared_audio_environment_revision: None,
            active_audio_environment_revision: opt_env(self.active_projection),
            queued_at_ms: Some(now_ms),
            started_at_ms: None,
            completed_at_ms: None,
            last_native_response_at_ms: None,
            discarded_preparation_count: 0,
            last_error: None,
        };
        SubmissionResult::Accepted { operation_id, key }
    }

    /// The published status after observing `generation`.
    pub fn status(&mut self, generation: u64) -> (st: RuntimeProjectionStatus)
        ensures
            *final(self) == observe_spec(*old(self), generation),
            st == final(self).status,
    {
        self.observe_generation(generation);
        clone_status(&self.status)
    }

    /// Whether `key` is the active graph on `generation` and the current
    /// environment with nothing queued or running.
    pub fn is_ready_for(&mut self, generation: u64, key: ProjectionKey) -> (r: bool)
        ensures
            *final(self) == observe_spec(*old(self), generation),
            r == ready_spec(*final(self), generation, key),
    {
        self.observe_generation(generation);
        let active = match self.active_projection {
            Some(a) => a.runtime_generation == generation && a.key == key
                && a.audio_environment_revision == self.audio_environment_revision,
            None => false,
        };
        self.latest_target.is_none() && self.running_operation_id.is_none() && active
    }

    /// Marks the pipeline failed with `message` at `now_ms`.
    pub fn mark_failed(&mut self, message: String, now_ms: u64)
        ensures
            (*final(self) == ProjectionState {
                status: RuntimeProjectionStatus {
                    state: RuntimeProjectionState::Failed,
                    running_operation_id: old(self).running_operation_id,
                    last_error: Some(message),
                    completed_at_ms: Some(now_ms),
                    ..old(self).status
                },
                ..*old(self)
            }),
    {
        self.status.state = RuntimeProjectionState::Failed;
        self.status.running_operation_id = self.running_operation_id;
        self.status.last_error = Some(message);
        self.status.completed_at_ms = Some(now_ms);
    }

    /// Invalidates everything prepared for the previous audio device
    /// environment and returns the new environment revision.
    pub fn advance_audio_environment(&mut self, generation: u64) -> (revision: u64)
        ensures
            *final(self) == advance_spec(*old(self), generation),
            revision == final(self).audio_environment_revision,
    {
        self.observe_generation(generation);
        self.latest_target = None;
        self.desired_key = None;
        self.active_projection = None;
        self.audio_environment_revision = self.audio_environment_revision.saturating_add(1);
        self.status.state = if self.running_operation_id.is_some() {
            RuntimeProjectionState::Preparing
        } else {
            RuntimeProjectionState::Idle
        };
        self.status.running_operation_id = self.running_operation_id;
        self.status.target_projection_sequence = None;
        self.status.target_session_revision = None;
        self.status.prepared_session_revision = None;
        self.status.active_projection_sequence = None;
        self.status.active_session_revision = None;
        self.status.runtime_generation = generation;
        self.status.audio_environment_revision = self.audio_environment_revision;
        self.status.target_audio_environment_revision = None;
        self.status.prepared_audio_environment_revision = None;
        self.status.active_audio_environment_revision = None;
        self.status.queued_at_ms = None;
        self.status.started_at_ms = None;
        self.status.completed_at_ms = None;
        self.status.last_native_response_at_ms = None;
        self.status.last_error = None;
        self.audio_environment_revision
    }

    /// Asks the worker to stop and drops the queued target.
    pub fn request_shutdown(&mut self)
        ensures
            (*final(self) == ProjectionState { stop_requested: true, latest_target: None, ..*old(self) }),
    {
        self.stop_requested = true;
        self.latest_target = None;
    }

    /// Worker: takes the queued target, if any, and marks it running.
    pub fn begin_next(&mut self, generation: u64, now_ms: u64) -> (step: WorkerStep<S>)
        ensures
            old(self).stop_requested ==> (step is Exit && *final(self) == *old(self)),
            !old(self).stop_requested && old(self).latest_target is None ==> (step is Wait && *final(self) == *old(self)),
            !old(self).stop_requested && old(self).latest_target is Some ==> ({
                let t = old(self).latest_target->0;
                &&& step == WorkerStep::Run(identity_of(t), t.snapshot)
                &&& *final(self) == ProjectionState {
                    latest_target: None,
                    running_operation_id: Some(t.operation_id),
                    status: if old(self).status.operation_id == t.operation_id {
                        RuntimeProjectionStatus {
                            state: RuntimeProjectionState::Preparing,
                            running_operation_id: Some(t.operation_id),
                            started_at_ms: Some(now_ms),
                            runtime_generation: generation,
                            audio_environment_revision: old(self).audio_environment_revision,
                            ..old(self).status
                        }
                    } else {
                        old(self).status
                    },
                    ..*old(self)
                }
            }),
    {
        if self.stop_requested {
            return WorkerStep::Exit;
        }
        match self.latest_target.take() {
            None => WorkerStep::Wait,
            Some(t) => {
                self.running_operation_id = Some(t.operation_id);
                if self.status.operation_id == t.operation_id {
                    self.status.state = RuntimeProjectionState::Preparing;
                    self.status.running_operation_id = Some(t.operation_id);
                    self.status.started_at_ms = Some(now_ms);
                    self.status.runtime_generation = generation;
                    self.status.audio_environment_revision = self.audio_environment_revision;
                }
                let id = TargetIdentity {
                    operation_id: t.operation_id,
                    key: t.key,
                    runtime_generation: t.runtime_generation,
                    audio_environment_revision: t.audio_environment_revision,
                    canonical: t.canonical,
                };
                WorkerStep::Run(id, t.snapshot)
            },
        }
    }

    /// Worker: records the native answer to the prepare step.
    pub fn record_prepare_response(&mut self, target: TargetIdentity, prepared: bool, now_ms: u64)
        ensures
            (*final(self) == ProjectionState {
                status: if prepared && old(self).status.operation_id == target.operation_id {
                    RuntimeProjectionStatus {
                        last_native_response_at_ms: Some(now_ms),
                        prepared_session_revision: Some(target.key.session_revision),
                        prepared_audio_environment_revision: Some(target.audio_environment_revision),
                        ..old(self).status
                    }
                } else {
                    RuntimeProjectionStatus { last_native_response_at_ms: Some(now_ms), ..old(self).status }
                },
                ..*old(self)
            }),
    {
        self.status.last_native_response_at_ms = Some(now_ms);
        if prepared && self.status.operation_id == target.operation_id {
            self.status.prepared_session_revision = Some(target.key.session_revision);
            self.status.prepared_audio_environment_revision = Some(target.audio_environment_revision);
        }
    }

    /// Worker: whether a prepared target may still be committed: it is the
    /// current operation, nothing newer is queued, no shutdown, its
    /// generation and environment are current, and it is not older than the
    /// active or desired graph.
    pub fn should_publish(&self, target: TargetIdentity, generation: u64) -> (r: bool)
        ensures
            r == publish_spec(*self, target, generation),
    {
        let not_older_than_active = match self.active_projection {
            Some(a) => target.key.sequence >= a.key.sequence,
            None => true,
        };
        let not_older_than_desired = match self.desired_key {
            Some(d) => target.key.sequence >= d.sequence,
            None => true,
        };
        self.status.operation_id == target.operation_id
            && self.latest_target.is_none()
            && !self.stop_requested
            && target.runtime_generation == generation
            && target.audio_environment_revision == self.audio_environment_revision
            && not_older_than_active
            && not_older_than_desired
    }

    /// Worker: records the answer to the commit step (a failed commit is
    /// discarded natively by the caller).
    pub fn record_commit_response(&mut self, target: TargetIdentity, committed: bool, now_ms: u64)
        ensures
            (*final(self) == ProjectionState {
                status: RuntimeProjectionStatus {
                    last_native_response_at_ms: Some(now_ms),
                    discarded_preparation_count: if committed { old(self).status.discarded_preparation_count } else { sat_inc(old(self).status.discarded_preparation_count) },
                    prepared_session_revision: if !committed && old(self).status.operation_id == target.operation_id { None } else { old(self).status.prepared_session_revision },
                    ..old(self).status
                },
                ..*old(self)
            }),
    {
        self.status.last_native_response_at_ms = Some(now_ms);
        if !committed {
            self.status.discarded_preparation_count = self.status.discarded_preparation_count.saturating_add(1);
            if self.status.operation_id == target.operation_id {
                self.status.prepared_session_revision = None;
            }
        }
    }

    /// Worker: a prepared target that may not be committed was discarded;
    /// the operation ends without changing the active graph.
    pub fn record_unpublished(&mut self, target: TargetIdentity, now_ms: u64)
        ensures
            final(self).running_operation_id is None,
            final(self).status.running_operation_id is None,
            final(self).active_projection == old(self).active_projection,
            final(self).latest_target == old(self).latest_target,
            final(self).desired_key == old(self).desired_key,
            final(self).next_operation_id == old(self).next_operation_id,
            final(self).audio_environment_revision == old(self).audio_environment_revision,
            final(self).status.discarded_preparation_count == sat_inc(old(self).status.discarded_preparation_count),
            final(self).status.last_native_response_at_ms == Some(now_ms),
            old(self).status.operation_id == target.operation_id ==> {
                &&& final(self).status.prepared_session_revision is None
                &&& final(self).status.completed_at_ms == Some(now_ms)
                &&& final(self).status.state == settled_state(*old(self))
                &&& final(self).status.active_projection_sequence == match old(self).active_projection { Some(a) => Some(a.key.sequence), None => None::<u64> }
                &&& final(self).status.active_session_revision == match old(self).active_projection { Some(a) => Some(a.key.session_revision), None => None::<u64> }
            },
            (old(self).status.operation_id != target.operation_id ==> final(self).status == RuntimeProjectionStatus {
                last_native_response_at_ms: Some(now_ms),
                discarded_preparation_count: sat_inc(old(self).status.discarded_preparation_count),
                running_operation_id: None,
                ..old(self).status
            }),
    {
        self.status.last_native_response_at_ms = Some(now_ms);
        self.status.discarded_preparation_count = self.status.discarded_preparation_count.saturating_add(1);
        if self.status.operation_id == target.operation_id {
            self.status.prepared_session_revision = None;
            self.status.running_operation_id = None;
            self.status.active_projection_sequence = opt_seq(self.active_projection);
            self.status.active_session_revision = opt_rev(self.active_projection);
            self.status.completed_at_ms = Some(now_ms);
            self.status.state = if self.latest_target.is_some() {
                RuntimeProjectionState::Queued
            } else if self.active_projection.is_some() {
                RuntimeProjectionState::Active
            } else {
                RuntimeProjectionState::Idle
            };
        }
        self.running_operation_id = None;
        self.status.running_operation_id = None;
    }

    /// Worker: ends the running operation with the outcome of prepare and
    /// commit. `prepare_generation` is the native generation seen before
    /// preparing and `current_generation` the one seen now; a change between
    /// them fails the operation. A successful graph becomes active only when
    /// its generation and environment are still current and it is not older
    /// than the active or desired graph.
    pub fn complete_operation(
        &mut self,
        target: TargetIdentity,
        prepare_generation: u64,
        current_generation: u64,
        result: Result<(), RuntimeError>,
        now_ms: u64,
    )
        ensures
            exists|text: String| text@ == outcome_text(effective_result(target, prepare_generation, current_generation, result))
                && *final(self) == complete_spec(*old(self), target, prepare_generation, current_generation, result, now_ms, text),
    {
        let ghost start = *self;
        let ghost given = result;
        if current_generation != target.runtime_generation {
            self.observe_generation(current_generation);
        }
        let result = if prepare_generation == current_generation {
            result
        } else {
            Err(RuntimeError::GenerationChanged { expected: prepare_generation, actual: current_generation })
        };
        let text = match &result {
            Ok(_) => String::new(),
            Err(e) => e.message(),
        };
        let ghost text_g = text;
        let identity_is_current = target.runtime_generation == current_generation
            && target.audio_environment_revision == self.audio_environment_revision;
        self.running_operation_id = None;
        self.status.running_operation_id = None;
        match result {
            Ok(()) => {
                if identity_is_current {
                    let not_older_than_active = match self.active_projection {
                        Some(a) => target.key.sequence >= a.key.sequence,
                        None => true,
                    };
                    let not_older_than_desired = match self.desired_key {
                        Some(d) => target.key.sequence >= d.sequence,
                        None => true,
                    };
                    if not_older_than_active && not_older_than_desired {
                        self.active_projection = Some(ActiveProjection {
                            runtime_generation: current_generation,
                            audio_environment_revision: target.audio_environment_revision,
                            key: target.key,
                            canonical: target.canonical,
                        });
                    }
                    if self.status.operation_id == target.operation_id {
                        self.status.active_projection_sequence = opt_seq(self.active_projection);
                        self.status.active_session_revision = opt_rev(self.active_projection);
                        self.status.active_audio_environment_revision = opt_env(self.active_projection);
                        self.status.runtime_generation = current_generation;
                        self.status.audio_environment_revision = self.audio_environment_revision;
                        self.status.prepared_session_revision = None;
                        self.status.prepared_audio_environment_revision = None;
                        self.status.completed_at_ms = Some(now_ms);
                        self.status.last_error = None;
                        self.status.state = if self.latest_target.is_some() {
                            RuntimeProjectionState::Queued
                        } else if self.active_projection.is_some() {
                            RuntimeProjectionState::Active
                        } else {
                            RuntimeProjectionState::Idle
                        };
                    }
                } else {
                    self.status.prepared_session_revision = None;
                    self.status.prepared_audio_environment_revision = None;
                    self.status.state = if self.latest_target.is_some() {
                        RuntimeProjectionState::Queued
                    } else if self.active_projection.is_some() {
                        RuntimeProjectionState::Active
                    } else {
                        RuntimeProjectionState::Idle
                    };
                }
            },
            Err(error) => {
                if self.status.operation_id == target.operation_id && identity_is_current {
                    self.status.state = RuntimeProjectionState::Failed;
                    self.status.runtime_generation = current_generation;
                    self.status.audio_environment_revision = self.audio_environment_revision;
                    self.status.completed_at_ms = Some(now_ms);
                    self.status.prepared_session_revision = None;
                    self.status.prepared_audio_environment_revision = None;
                    self.status.last_error = Some(text);
                }
            },
        }
        assert(*self == complete_spec(start, target, prepare_generation, current_generation, given, now_ms, text_g));
    }

    /// How a caller waiting for `operation_id` (projection `key`) on
    /// `generation` should proceed.
    pub fn wait_outcome(&self, operation_id: u64, key: ProjectionKey, generation: u64) -> (w: WaitOutcome)
        ensures
            wait_spec(*self, operation_id, key, generation, w),
    {
        if self.status.operation_id != operation_id {
            let mut m = to_string("Runtime operation ");
            let n = u64_to_decimal(operation_id);
            append_str(&mut m, n.as_str());
            append_str(&mut m, " was superseded by a newer projection.");
            return WaitOutcome::Failed(RuntimeError::Superseded { message: m });
        }
        let requested_active = match self.active_projection {
            Some(a) => a.runtime_generation == generation && a.key == key,
            None => false,
        };
        if self.running_operation_id.is_none() && self.latest_target.is_none() {
            if self.status.state == RuntimeProjectionState::Active && requested_active {
                return WaitOutcome::Activated(clone_status(&self.status));
            }
            match self.status.state {
                RuntimeProjectionState::Failed => {
                    let m = match &self.status.last_error {
                        Some(e) => e.clone(),
                        None => to_string("Runtime projection failed."),
                    };
                    return WaitOutcome::Failed(RuntimeError::NativeRejected(m));
                },
                RuntimeProjectionState::Active => {
                    let mut m = to_string("Runtime operation ");
                    let n = u64_to_decimal(operation_id);
                    append_str(&mut m, n.as_str());
                    append_str(&mut m, " completed without activating the requested projection (sequence ");
                    let q = u64_to_decimal(key.sequence);
                    append_str(&mut m, q.as_str());
                    append_str(&mut m, ").");
                    return WaitOutcome::Failed(RuntimeError::Internal(m));
                },
                _ => {},
            }
        }
        WaitOutcome::Pending
    }
}

/// Turns a submission answer into the operation to wait for; a superseded
/// request is an error naming both sequences.
pub fn submission_operation(submitted: SubmissionResult, requested_key: ProjectionKey) -> (r: Result<(u64, ProjectionKey), RuntimeError>)
    ensures
        match submitted {
            SubmissionResult::Accepted { operation_id, key } => r == Ok::<(u64, ProjectionKey), RuntimeError>((operation_id, key)),
            SubmissionResult::AlreadyActive { operation_id, key } => r == Ok::<(u64, ProjectionKey), RuntimeError>((operation_id, key)),
            SubmissionResult::FollowingExisting { operation_id, key } => r == Ok::<(u64, ProjectionKey), RuntimeError>((operation_id, key)),
            SubmissionResult::Superseded { desired_key } => r matches Err(RuntimeError::Superseded { message })
                && message@ == "Runtime projection request (sequence "@ + decimal(requested_key.sequence as nat)
                    + ") was superseded by newer canonical Session (sequence "@ + decimal(desired_key.sequence as nat) + ")."@,
        },
{
    match submitted {
        SubmissionResult::Accepted { operation_id, key } => Ok((operation_id, key)),
        SubmissionResult::AlreadyActive { operation_id, key } => Ok((operation_id, key)),
        SubmissionResult::FollowingExisting { operation_id, key } => Ok((operation_id, key)),
        SubmissionResult::Superseded { desired_key } => {
            let mut m = to_string("Runtime projection request (sequence ");
            let a = u64_to_decimal(requested_key.sequence);
            append_str(&mut m, a.as_str());
            append_str(&mut m, ") was superseded by newer canonical Session (sequence ");
            let b = u64_to_decimal(desired_key.sequence);
            append_str(&mut m, b.as_str());
            append_str(&mut m, ").");
            Err(RuntimeError::Superseded { message: m })
        },
    }
}

/// What the transport does when the projection publishes a status.
#[derive(Clone, Copy, Debug, PartialEq, Eq, Structural)]
pub enum StatusReaction {
    /// A graph became active: start a Play that waited for it.
    PlayAfter(ProjectionKey),
    /// The projection of this key failed: drop a Play that waited for it.
    FailPlay(ProjectionKey),
    Nothing,
}

/// The key made of an optional sequence and revision, when both are known.
pub open spec fn key_of(sequence: Option<u64>, revision: Option<u64>) -> Option<ProjectionKey> {
    match (sequence, revision) {
        (Some(s), Some(r)) => Some(ProjectionKey { sequence: s, session_revision: r }),
        _ => None,
    }
}

/// The transport's reaction to a published status: an active graph releases
/// a Play waiting for it, a failed projection drops a Play waiting for its
/// target; any other status, or one whose key is incomplete, changes nothing.
pub fn status_reaction(status: &RuntimeProjectionStatus) -> (r: StatusReaction)
    ensures
        r == match status.state {
            RuntimeProjectionState::Active => match key_of(status.active_projection_sequence, status.active_session_revision) {
                Some(k) => StatusReaction::PlayAfter(k),
                None => StatusReaction::Nothing,
            },
            RuntimeProjectionState::Failed => match key_of(status.target_projection_sequence, status.target_session_revision) {
                Some(k) => StatusReaction::FailPlay(k),
                None => StatusReaction::Nothing,
            },
            _ => StatusReaction::Nothing,
        },
{
    match status.state {
        RuntimeProjectionState::Active => match (status.active_projection_sequence, status.active_session_revision) {
            (Some(sequence), Some(session_revision)) => StatusReaction::PlayAfter(ProjectionKey { sequence, session_revision }),
            _ => StatusReaction::Nothing,
        },
        RuntimeProjectionState::Failed => match (status.target_projection_sequence, status.target_session_revision) {
            (Some(sequence), Some(session_revision)) => StatusReaction::FailPlay(ProjectionKey { sequence, session_revision }),
            _ => StatusReaction::Nothing,
        },
        _ => StatusReaction::Nothing,
    }
}

/// The error of a caller whose operation did not become active within its
/// timeout of `timeout_secs` whole seconds.
pub fn wait_timed_out(operation_id: u64, timeout_secs: u64) -> (e: RuntimeError)
    ensures
        e matches RuntimeError::Timeout { message } && message@ == "Runtime operation "@ + decimal(operation_id as nat)
            + " did not become active within "@ + decimal(timeout_secs as nat) + " seconds."@,
{
    let mut m = to_string("Runtime operation ");
    let n = u64_to_decimal(operation_id);
    append_str(&mut m, n.as_str());
    append_str(&mut m, " did not become active within ");
    let t = u64_to_decimal(timeout_secs);
    append_str(&mut m, t.as_str());
    append_str(&mut m, " seconds.");
    RuntimeError::Timeout { message: m }
}

/// The time left for the next native step: the default when there is no
/// deadline, a timeout error when the deadline has passed, otherwise the
/// smaller of the remaining time and the default (all in milliseconds).
pub fn remaining_timeout(remaining_ms: Option<u64>, default_ms: u64) -> (r: Result<u64, RuntimeError>)
    ensures
        match remaining_ms {
            None => r == Ok::<u64, RuntimeError>(default_ms),
            Some(0) => r matches Err(RuntimeError::Timeout { message })
                && message@ == "Runtime projection deadline expired before the next native step."@,
            Some(left) => r == Ok::<u64, RuntimeError>(if left < default_ms { left } else { default_ms }),
        },
{
    match remaining_ms {
        None => Ok(default_ms),
        Some(left) => if left == 0 {
            Err(RuntimeError::Timeout { message: to_string("Runtime projection deadline expired before the next native step.") })
        } else if left < default_ms {
            Ok(left)
        } else {
            Ok(default_ms)
        },
    }
}

/// The active graph never moves back to an older canonical sequence when an
/// operation completes (a change of native generation, which drops the
/// active graph, aside).
pub proof fn law_active_projection_never_regresses<S>(
    s: ProjectionState<S>,
    t: TargetIdentity,
    prepare_generation: u64,
    current: u64,
    result: Result<(), RuntimeError>,
    now: u64,
    text: String,
)
    requires
        current == t.runtime_generation,
        s.active_projection is Some,
    ensures
        ({
            let after = complete_spec(s, t, prepare_generation, current, result, now, text);
            after.active_projection is Some
                && after.active_projection->0.key.sequence >= s.active_projection->0.key.sequence
        }),
{
}

/// A completed graph is never older than the desired sequence it was
/// promoted under.
pub proof fn law_promoted_graph_is_not_older_than_desired<S>(
    s: ProjectionState<S>,
    t: TargetIdentity,
    prepare_generation: u64,
    current: u64,
    result: Result<(), RuntimeError>,
    now: u64,
    text: String,
)
    requires
        current == t.runtime_generation,
        s.desired_key is Some,
    ensures
        ({
            let after = complete_spec(s, t, prepare_generation, current, result, now, text);
            after.active_projection != s.active_projection ==> after.active_projection->0.key.sequence >= s.desired_key->0.sequence
        }),
{
}

/// After an audio-environment change no projection is ready, whatever the
/// generation, and the environment revision moves forward.
pub proof fn law_environment_change_invalidates<S>(s: ProjectionState<S>, g: u64, g2: u64, key: ProjectionKey)
    ensures
        !ready_spec(advance_spec(s, g), g2, key),
        advance_spec(s, g).audio_environment_revision >= s.audio_environment_revision,
        s.audio_environment_revision < u64::MAX - 1 ==> advance_spec(s, g).audio_environment_revision > s.audio_environment_revision,
{
}

/// A new native generation drops the active graph, so nothing is ready
/// until a graph is committed on the new generation.
pub proof fn law_new_generation_drops_active<S>(s: ProjectionState<S>, g: u64, key: ProjectionKey)
    requires
        s.status.runtime_generation != g,
    ensures
        observe_spec(s, g).active_projection is None,
        !ready_spec(observe_spec(s, g), g, key),
{
}

/// The runtime side of projection: preparing, committing and discarding a
/// timeline snapshot on the native graph. Implemented by the host's audio
/// supervisor; nothing is assumed of what it returns.
pub trait ProjectionDriver {
    fn prepare_timeline_snapshot(&self, snapshot: serde_json::Value, timeout_ms: u64) -> Result<(), RuntimeError>;
    fn commit_timeline_snapshot(&self, timeout_ms: u64) -> Result<(), RuntimeError>;
    fn discard_timeline_snapshot(&self, timeout_ms: u64) -> Result<(), RuntimeError>;
    fn runtime_generation(&self) -> u64;
    fn release_runtime_mute_if_allowed(&self) -> Result<(), RuntimeError>;
    fn force_shutdown(&self);
}

/// The runtime side of transport: starting and stopping playback.
pub trait TransportDriver {
    fn play_timeline(&self) -> Result<(), RuntimeError>;
    fn stop_timeline(&self) -> Result<(), RuntimeError>;
}

/// A runtime that serves both projection and transport.
pub trait RuntimeDriver: ProjectionDriver + TransportDriver {}

} // verus!
