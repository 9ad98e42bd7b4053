//! Plain device and audio-state vocabulary shared by the runtime boundary.

use vstd::prelude::*;

verus! {

/// How a driver shares the audio device with other applications.
#[derive(Clone, Copy, Debug, PartialEq, Eq, Structural)]
pub enum AudioAccessMode {
    Shared,
    Exclusive,
    DriverManaged,
}

impl Default for AudioAccessMode {
    fn default() -> (r: Self)
        ensures
            r == AudioAccessMode::DriverManaged,
    {
        AudioAccessMode::DriverManaged
    }
}

/// Whether a driver's input and output must be the same device.
#[derive(Clone, Copy, Debug, PartialEq, Eq, Structural)]
pub enum AudioDevicePairing {
    Independent,
    SameDevice,
}

impl Default for AudioDevicePairing {
    fn default() -> (r: Self)
        ensures
            r == AudioDevicePairing::Independent,
    {
        AudioDevicePairing::Independent
    }
}

/// State of the native audio engine as shown to the user.
#[derive(Clone, Copy, Debug, PartialEq, Eq, Structural)]
pub enum AudioState {
    Offline,
    Starting,
    Ready,
    Muted,
    Faulted,
}

/// A named audio channel of a device.
#[derive(Clone, Debug, PartialEq, Eq)]
pub struct AudioChannelInfo {
    pub index: u32,
    pub name: String,
}

/// A MIDI port reported by the device probe.
#[derive(Clone, Debug, PartialEq, Eq)]
pub struct MidiDeviceInfo {
    pub id: String,
    pub name: String,
}

/// One audio driver reported by the device probe.
#[derive(Clone, Debug)]
pub struct AudioDriverInfo {
    pub name: String,
    pub access_mode: AudioAccessMode,
    pub device_pairing: AudioDevicePairing,
    pub inputs: Vec<String>,
    pub outputs: Vec<String>,
}

/// The result of one audio and MIDI device probe.
#[derive(Clone, Debug)]
pub struct AudioDeviceProbe {
    pub drivers: Vec<AudioDriverInfo>,
    pub midi_inputs: Vec<MidiDeviceInfo>,
    pub midi_outputs: Vec<MidiDeviceInfo>,
    pub refreshed_at_ms: u64,
    pub message: String,
}

/// The result of one MIDI-only device probe.
#[derive(Clone, Debug)]
pub struct MidiProbe {
    pub inputs: Vec<MidiDeviceInfo>,
    pub outputs: Vec<MidiDeviceInfo>,
    pub refreshed_at_ms: u64,
    pub message: String,
}

/// A restorable session generation offered after a crash.
#[derive(Clone, Debug)]
pub struct RecoveryCandidate {
    pub file_name: String,
    pub updated_at_ms: u64,
    pub session_id: String,
    pub project_name: Option<String>,
    pub note: String,
}

/// Recording progress reported by the native engine.
#[derive(Clone, Debug, Default)]
pub struct RecordingStatus {
    pub active: bool,
    pub directory: Option<String>,
    pub sample_rate: Option<u32>,
    pub raw_channels: Option<u32>,
    pub processed_channels: Option<u32>,
    pub samples_written: u64,
    pub dropped_blocks: u64,
    pub missing_samples: u64,
    pub dropout_start_sample: Option<u64>,
    pub dropout_end_sample: Option<u64>,
    pub recovery_status: String,
}

/// What the front end receives at start: the session (of type `S`) and
/// the host's situation.
pub struct BootstrapState<S> {
    pub session: S,
    pub recovered_from_generation: bool,
    pub safe_mode: bool,
    pub native_available: bool,
    pub recovery_candidates: Vec<RecoveryCandidate>,
    pub data_root: String,
    pub vst3_root: String,
}

} // verus!
