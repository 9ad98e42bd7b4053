//! Recording captures: one recording event, its status lifecycle, and the
//! assets it produced.
//!
//! Transitions are defined here and only here. `Completed`, `Recoverable`
//! and `Failed` are terminal: nothing leaves them, and in particular a
//! capture never returns to `Recording`.

use vstd::prelude::*;
use crate::asset::AssetId;
use crate::errors::DomainError;
use crate::rack::RackDevice;
use crate::text::{to_string, opt_view};

verus! {

broadcast use vstd::string::group_string_axioms;

/// Status of a recording capture.
#[derive(Clone, Copy, Debug, PartialEq, Eq, Hash, Structural)]
pub enum RecordingCaptureStatus {
    Recording,
    Completing,
    Completed,
    Recoverable,
    Failed,
}

/// The lower-case name of a status.
pub open spec fn status_name(s: RecordingCaptureStatus) -> Seq<char> {
    match s {
        RecordingCaptureStatus::Recording => "recording"@,
        RecordingCaptureStatus::Completing => "completing"@,
        RecordingCaptureStatus::Completed => "completed"@,
        RecordingCaptureStatus::Recoverable => "recoverable"@,
        RecordingCaptureStatus::Failed => "failed"@,
    }
}

impl RecordingCaptureStatus {
    /// The lower-case name of the status.
    pub fn as_str(self) -> (s: &'static str)
        ensures
            s@ == status_name(self),
    {
        match self {
            RecordingCaptureStatus::Recording => "recording",
            RecordingCaptureStatus::Completing => "completing",
            RecordingCaptureStatus::Completed => "completed",
            RecordingCaptureStatus::Recoverable => "recoverable",
            RecordingCaptureStatus::Failed => "failed",
        }
    }
}

/// Whether a status is terminal.
pub open spec fn is_terminal(s: RecordingCaptureStatus) -> bool {
    s == RecordingCaptureStatus::Completed || s == RecordingCaptureStatus::Recoverable || s == RecordingCaptureStatus::Failed
}

/// The transition matrix: `Recording` may go to `Completing`, `Recoverable`
/// or `Failed`; `Completing` may go to `Completed`, `Recoverable` or
/// `Failed`; nothing else is allowed.
pub open spec fn allows_spec(from: RecordingCaptureStatus, to: RecordingCaptureStatus) -> bool {
    match from {
        RecordingCaptureStatus::Recording => to == RecordingCaptureStatus::Completing
            || to == RecordingCaptureStatus::Recoverable || to == RecordingCaptureStatus::Failed,
        RecordingCaptureStatus::Completing => to == RecordingCaptureStatus::Completed
            || to == RecordingCaptureStatus::Recoverable || to == RecordingCaptureStatus::Failed,
        _ => false,
    }
}

/// Dropout diagnostics captured during recording.
#[derive(Clone, Copy, Debug, Default, PartialEq, Eq, Structural)]
pub struct DropoutInformation {
    pub samples_written: u64,
    pub dropped_blocks: u64,
    pub missing_samples: u64,
    pub dropout_start_sample: Option<u64>,
    pub dropout_end_sample: Option<u64>,
}

impl DropoutInformation {
    /// No samples, no dropouts.
    pub fn empty() -> (d: DropoutInformation)
        ensures
            d == (DropoutInformation { samples_written: 0, dropped_blocks: 0, missing_samples: 0, dropout_start_sample: None, dropout_end_sample: None }),
    {
        DropoutInformation { samples_written: 0, dropped_blocks: 0, missing_samples: 0, dropout_start_sample: None, dropout_end_sample: None }
    }
}

/// One recording event and the assets it produced. `P` carries the device
/// settings of the rack snapshot.
pub struct RecordingCapture<P> {
    pub capture_id: String,
    pub session_id: String,
    pub status: RecordingCaptureStatus,
    pub started_at_ms: u64,
    pub completed_at_ms: Option<u64>,
    pub sample_rate: Option<u32>,
    pub input_device: Option<String>,
    pub workspace: Option<String>,
    pub source: Option<String>,
    pub rack_snapshot: Vec<RackDevice<P>>,
    pub raw_audio_asset_id: Option<AssetId>,
    pub processed_audio_asset_id: Option<AssetId>,
    pub midi_asset_id: Option<AssetId>,
    pub dropout_information: DropoutInformation,
}

impl<P> RecordingCapture<P> {
    /// Starts a new capture in the `Recording` status with nothing produced.
    pub fn start(capture_id: String, session_id: String, started_at_ms: u64) -> (c: RecordingCapture<P>)
        ensures
            c.capture_id == capture_id,
            c.session_id == session_id,
            c.status == RecordingCaptureStatus::Recording,
            c.started_at_ms == started_at_ms,
            c.completed_at_ms is None,
            c.sample_rate is None,
            c.input_device is None,
            c.workspace is None,
            c.source is None,
            c.rack_snapshot@.len() == 0,
            c.raw_audio_asset_id is None,
            c.processed_audio_asset_id is None,
            c.midi_asset_id is None,
            c.dropout_information == DropoutInformation::default_spec(),
    {
        RecordingCapture {
            capture_id,
            session_id,
            status: RecordingCaptureStatus::Recording,
            started_at_ms,
            completed_at_ms: None,
            sample_rate: None,
            input_device: None,
            workspace: None,
            source: None,
            rack_snapshot: Vec::new(),
            raw_audio_asset_id: None,
            processed_audio_asset_id: None,
            midi_asset_id: None,
            dropout_information: DropoutInformation::empty(),
        }
    }

    /// Whether `from -> to` is an allowed transition.
    pub fn allows(from: RecordingCaptureStatus, to: RecordingCaptureStatus) -> (r: bool)
        ensures
            r == allows_spec(from, to),
    {
        match from {
            RecordingCaptureStatus::Recording => match to {
                RecordingCaptureStatus::Completing | RecordingCaptureStatus::Recoverable | RecordingCaptureStatus::Failed => true,
                _ => false,
            },
            RecordingCaptureStatus::Completing => match to {
                RecordingCaptureStatus::Completed | RecordingCaptureStatus::Recoverable | RecordingCaptureStatus::Failed => true,
                _ => false,
            },
            _ => false,
        }
    }

    /// Moves the capture to `to`, enforcing the transition matrix. Reaching
    /// `Completed` records `now_ms` as the completion time. A disallowed
    /// transition changes nothing and names both statuses.
    pub fn transition(&mut self, to: RecordingCaptureStatus, now_ms: u64) -> (r: Result<(), DomainError>)
        ensures
            allows_spec(old(self).status, to) ==> {
                &&& r is Ok
                &&& final(self).status == to
                &&& final(self).completed_at_ms == if to == RecordingCaptureStatus::Completed { Some(now_ms) } else { old(self).completed_at_ms }
            },
            !allows_spec(old(self).status, to) ==> {
                &&& r matches Err(DomainError::InvalidRecordingTransition { from, to: t })
                    && from@ == status_name(old(self).status) && t@ == status_name(to)
                &&& final(self).status == old(self).status
                &&& final(self).completed_at_ms == old(self).completed_at_ms
            },
            final(self).capture_id == old(self).capture_id,
            final(self).session_id == old(self).session_id,
            final(self).started_at_ms == old(self).started_at_ms,
            final(self).sample_rate == old(self).sample_rate,
            final(self).input_device == old(self).input_device,
            final(self).workspace == old(self).workspace,
            final(self).source == old(self).source,
            final(self).rack_snapshot == old(self).rack_snapshot,
            final(self).raw_audio_asset_id == old(self).raw_audio_asset_id,
            final(self).processed_audio_asset_id == old(self).processed_audio_asset_id,
            final(self).midi_asset_id == old(self).midi_asset_id,
            final(self).dropout_information == old(self).dropout_information,
    {
        if !Self::allows(self.status, to) {
            return Err(DomainError::InvalidRecordingTransition {
                from: to_string(self.status.as_str()),
                to: to_string(to.as_str()),
            });
        }
        self.status = to;
        if to == RecordingCaptureStatus::Completed {
            self.completed_at_ms = Some(now_ms);
        }
        Ok(())
    }
}

impl DropoutInformation {
    /// No samples, no dropouts.
    pub open spec fn default_spec() -> DropoutInformation {
        DropoutInformation { samples_written: 0, dropped_blocks: 0, missing_samples: 0, dropout_start_sample: None, dropout_end_sample: None }
    }
}

/// Terminal captures never change status: every transition out of
/// `Completed`, `Recoverable` or `Failed` is refused, so none of them can
/// return to `Recording`.
pub proof fn law_terminal_states_are_final(from: RecordingCaptureStatus, to: RecordingCaptureStatus)
    requires
        is_terminal(from),
    ensures
        !allows_spec(from, to),
{
}

/// A capture reaches `Completed` only through `Completing`, and no status
/// may transition to itself or back to `Recording`.
pub proof fn law_completion_goes_through_completing(from: RecordingCaptureStatus, to: RecordingCaptureStatus)
    ensures
        allows_spec(from, to) && to == RecordingCaptureStatus::Completed ==> from == RecordingCaptureStatus::Completing,
        !allows_spec(from, from),
        !allows_spec(from, RecordingCaptureStatus::Recording),
{
}

} // verus!
