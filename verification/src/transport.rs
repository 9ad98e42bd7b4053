//! Transport intent: which Play request, if any, is allowed to start native
//! playback, and for which prepared projection.
//!
//! Every Play, Stop or audio-environment change takes a fresh operation id;
//! only the newest Play intent can start playback, and only once the
//! projection it waits for is the active one.

use vstd::prelude::*;

verus! {

/// Identity of a prepared runtime graph: the canonical-session sequence and
/// the session revision it was built from.
#[derive(Clone, Copy, Debug, PartialEq, Eq, Structural)]
pub struct ProjectionKey {
    pub sequence: u64,
    pub session_revision: u64,
}

/// Monotonic identifier of a transport request.
#[derive(Clone, Copy, Debug, PartialEq, Eq, PartialOrd, Ord, Structural)]
pub struct TransportOperationId(pub u64);

impl TransportOperationId {
    /// The following operation id; saturates at the largest id.
    pub open spec fn next_spec(self) -> TransportOperationId {
        TransportOperationId(if self.0 == u64::MAX { u64::MAX } else { (self.0 + 1) as u64 })
    }

    /// The following operation id (saturating).
    pub fn next(self) -> (r: TransportOperationId)
        ensures
            r == self.next_spec(),
    {
        TransportOperationId(self.0.saturating_add(1))
    }
}

/// What the user last asked the transport to do.
#[derive(Clone, Copy, Debug, PartialEq, Eq, Structural)]
pub enum TransportIntent {
    Stopped,
    PlayRequested { operation: TransportOperationId, required_projection: Option<ProjectionKey> },
}

/// The operation id assigned to a Play request.
#[derive(Clone, Copy, Debug, PartialEq, Eq, Structural)]
pub struct PlayDecision {
    pub operation: TransportOperationId,
}

/// The operation id assigned to a Stop request.
#[derive(Clone, Copy, Debug, PartialEq, Eq, Structural)]
pub struct StopDecision {
    pub operation: TransportOperationId,
}

/// The transport intent state machine.
#[derive(Clone, Copy, Debug)]
pub struct TransportController {
    operation: TransportOperationId,
    intent: TransportIntent,
}

/// Mathematical state of a [`TransportController`].
pub struct TransportState {
    pub operation: u64,
    pub intent: TransportIntent,
}

/// Whether `required` is satisfied by `projection`.
pub open spec fn requirement_met(required: Option<ProjectionKey>, projection: ProjectionKey) -> bool {
    match required {
        None => true,
        Some(r) => r == projection,
    }
}

/// State after a Play request.
pub open spec fn play_spec(s: TransportState, required: Option<ProjectionKey>) -> TransportState {
    let op = TransportOperationId(s.operation).next_spec();
    TransportState { operation: op.0, intent: TransportIntent::PlayRequested { operation: op, required_projection: required } }
}

/// State after a Stop request (also an audio-environment invalidation).
pub open spec fn stop_spec(s: TransportState) -> TransportState {
    TransportState { operation: TransportOperationId(s.operation).next_spec().0, intent: TransportIntent::Stopped }
}

/// The Play operation released by activating `projection`, if any.
pub open spec fn activated_spec(s: TransportState, projection: ProjectionKey) -> Option<TransportOperationId> {
    match s.intent {
        TransportIntent::PlayRequested { operation, required_projection } =>
            if requirement_met(required_projection, projection) { Some(operation) } else { None },
        TransportIntent::Stopped => None,
    }
}

/// Whether `operation` may start playback with `active` as the active
/// projection.
pub open spec fn can_play_spec(s: TransportState, operation: TransportOperationId, active: Option<ProjectionKey>) -> bool {
    match s.intent {
        TransportIntent::PlayRequested { operation: requested, required_projection } =>
            requested == operation && match required_projection {
                None => true,
                Some(r) => active == Some(r),
            },
        TransportIntent::Stopped => false,
    }
}

/// Whether `operation` is the pending Play intent.
pub open spec fn play_requested_spec(s: TransportState, operation: TransportOperationId) -> bool {
    s.intent matches TransportIntent::PlayRequested { operation: requested, .. } && requested == operation
}

/// State after Play `operation` failed: the intent is cleared only when
/// `operation` is still the pending Play.
pub open spec fn play_failure_spec(s: TransportState, operation: TransportOperationId) -> (TransportState, bool) {
    if play_requested_spec(s, operation) {
        (TransportState { operation: s.operation, intent: TransportIntent::Stopped }, true)
    } else {
        (s, false)
    }
}

/// State after preparing `projection` failed: a Play waiting for exactly that
/// projection is cleared.
pub open spec fn projection_failure_spec(s: TransportState, projection: ProjectionKey) -> (TransportState, bool) {
    match s.intent {
        TransportIntent::PlayRequested { operation, required_projection: Some(r) } =>
            if r == projection { play_failure_spec(s, operation) } else { (s, false) },
        _ => (s, false),
    }
}

impl View for TransportController {
    type V = TransportState;

    closed spec fn view(&self) -> TransportState {
        TransportState { operation: self.operation.0, intent: self.intent }
    }
}

impl Default for TransportController {
    /// The initial controller: operation 0, stopped.
    fn default() -> (c: TransportController)
        ensures
            c@.operation == 0,
            c@.intent == TransportIntent::Stopped,
    {
        TransportController::new()
    }
}

impl TransportController {
    /// The initial controller: operation 0, stopped.
    pub fn new() -> (c: TransportController)
        ensures
            c@.operation == 0,
            c@.intent == TransportIntent::Stopped,
    {
        TransportController { operation: TransportOperationId(0), intent: TransportIntent::Stopped }
    }

    /// Registers a Play intent that waits for `required_projection` (if any).
    pub fn request_play(&mut self, required_projection: Option<ProjectionKey>) -> (d: PlayDecision)
        ensures
            final(self)@ == play_spec(old(self)@, required_projection),
            d.operation.0 == final(self)@.operation,
    {
        self.operation = self.operation.next();
        self.intent = TransportIntent::PlayRequested { operation: self.operation, required_projection };
        PlayDecision { operation: self.operation }
    }

    /// Registers a Stop, replacing any pending Play intent.
    pub fn request_stop(&mut self) -> (d: StopDecision)
        ensures
            final(self)@ == stop_spec(old(self)@),
            d.operation.0 == final(self)@.operation,
    {
        self.operation = self.operation.next();
        self.intent = TransportIntent::Stopped;
        StopDecision { operation: self.operation }
    }

    /// The pending Play released by activating `projection`.
    pub fn projection_activated(&self, projection: ProjectionKey) -> (r: Option<TransportOperationId>)
        ensures
            r == activated_spec(self@, projection),
    {
        match self.intent {
            TransportIntent::PlayRequested { operation, required_projection } => {
                match required_projection {
                    None => Some(operation),
                    Some(required) => if required == projection {
                        Some(operation)
                    } else {
                        None
                    },
                }
            },
            TransportIntent::Stopped => None,
        }
    }

    /// Whether Play `operation` may start with `active_projection` active.
    pub fn can_execute_play(&self, operation: TransportOperationId, active_projection: Option<ProjectionKey>) -> (r: bool)
        ensures
            r == can_play_spec(self@, operation, active_projection),
    {
        match self.intent {
            TransportIntent::PlayRequested { operation: requested, required_projection } => {
                requested == operation && match required_projection {
                    None => true,
                    Some(required) => match active_projection {
                        Some(a) => a == required,
                        None => false,
                    },
                }
            },
            TransportIntent::Stopped => false,
        }
    }

    /// Clears the Play intent after Play `operation` failed, unless a newer
    /// request replaced it; returns whether it was cleared.
    pub fn record_play_failure(&mut self, operation: TransportOperationId) -> (cleared: bool)
        ensures
            (final(self)@, cleared) == play_failure_spec(old(self)@, operation),
    {
        let current = match self.intent {
            TransportIntent::PlayRequested { operation: requested, .. } => requested == operation,
            TransportIntent::Stopped => false,
        };
        if !current {
            return false;
        }
        self.intent = TransportIntent::Stopped;
        true
    }

    /// Clears a Play intent that waits for `projection` after that
    /// projection failed; returns whether it was cleared.
    pub fn record_projection_failure(&mut self, projection: ProjectionKey) -> (cleared: bool)
        ensures
            (final(self)@, cleared) == projection_failure_spec(old(self)@, projection),
    {
        match self.intent {
            TransportIntent::PlayRequested { operation, required_projection: Some(required) } => {
                if required == projection {
                    self.record_play_failure(operation)
                } else {
                    false
                }
            },
            _ => false,
        }
    }

    /// Invalidates any pending Play after the audio device environment
    /// changed.
    pub fn invalidate_for_audio_environment(&mut self)
        ensures
            final(self)@ == stop_spec(old(self)@),
    {
        self.operation = self.operation.next();
        self.intent = TransportIntent::Stopped;
    }

    /// Whether a native Play may start now: an unconditional Play (no
    /// operation) always may; a requested one only while it can execute
    /// (see `can_execute_play`).
    pub fn should_play(&self, operation: Option<TransportOperationId>, active_projection: Option<ProjectionKey>) -> (r: bool)
        ensures
            r == match operation {
                None => true,
                Some(op) => can_play_spec(self@, op, active_projection),
            },
    {
        match operation {
            None => true,
            Some(op) => self.can_execute_play(op, active_projection),
        }
    }

    /// After a native Play failed: whether the failure belongs to the
    /// current Play, in which case native transport is stopped again and the
    /// failure reported. An unconditional Play always is current and leaves
    /// the intent alone; a requested one is current only while it is the
    /// pending intent, which it then clears (see `record_play_failure`).
    pub fn play_failed(&mut self, operation: Option<TransportOperationId>) -> (stop_and_report: bool)
        ensures
            match operation {
                None => final(self)@ == old(self)@ && stop_and_report,
                Some(op) => (final(self)@, stop_and_report) == play_failure_spec(old(self)@, op),
            },
    {
        match operation {
            None => true,
            Some(op) => self.record_play_failure(op),
        }
    }

    /// Whether `operation` is the pending Play intent.
    pub fn is_play_requested(&self, operation: TransportOperationId) -> (r: bool)
        ensures
            r == play_requested_spec(self@, operation),
    {
        match self.intent {
            TransportIntent::PlayRequested { operation: requested, .. } => requested == operation,
            TransportIntent::Stopped => false,
        }
    }
}

/// Operation ids never decrease, and strictly increase on every Play, Stop or
/// invalidation until the id space is exhausted.
pub proof fn law_operation_ids_are_monotonic(s: TransportState, required: Option<ProjectionKey>)
    ensures
        play_spec(s, required).operation >= s.operation,
        stop_spec(s).operation >= s.operation,
        s.operation < u64::MAX ==> play_spec(s, required).operation == s.operation + 1,
        s.operation < u64::MAX ==> stop_spec(s).operation == s.operation + 1,
{
}

/// A Stop replaces the pending Play: the earlier Play can no longer start,
/// be released by any projection, or be reported as pending.
pub proof fn law_stop_replaces_play(s: TransportState, required: Option<ProjectionKey>, projection: ProjectionKey, active: Option<ProjectionKey>)
    ensures
        ({
            let played = play_spec(s, required);
            let stopped = stop_spec(played);
            let op = TransportOperationId(played.operation);
            &&& !play_requested_spec(stopped, op)
            &&& !can_play_spec(stopped, op, active)
            &&& activated_spec(stopped, projection) is None
        }),
{
}

/// Activation releases a Play only for the projection it waits for, and a
/// Play without a requirement for any projection.
pub proof fn law_activation_matches_requirement(s: TransportState, required: Option<ProjectionKey>, projection: ProjectionKey)
    ensures
        activated_spec(play_spec(s, required), projection) == (if requirement_met(required, projection) {
            Some(TransportOperationId(play_spec(s, required).operation))
        } else {
            None
        }),
{
}

/// A failure report for an older Play never clears a newer intent.
pub proof fn law_stale_failure_keeps_newer_intent(s: TransportState, required: Option<ProjectionKey>, stale: TransportOperationId)
    requires
        s.operation < u64::MAX,
        stale.0 <= s.operation,
    ensures
        play_failure_spec(play_spec(s, required), stale) == (play_spec(s, required), false),
{
}

/// The current Play can start once its projection is active, and a failure
/// report for it clears the intent.
pub proof fn law_current_play_runs_or_clears(s: TransportState, required: Option<ProjectionKey>)
    ensures
        ({
            let p = play_spec(s, required);
            let op = TransportOperationId(p.operation);
            &&& can_play_spec(p, op, required)
            &&& play_failure_spec(p, op).1
            &&& play_failure_spec(p, op).0.intent == TransportIntent::Stopped
            &&& play_failure_spec(p, op).0.operation == p.operation
        }),
{
}

} // verus!
