//! Decisions of the application shell: Safe Mode, the device probe reply,
//! and the errors of session operations.

use vstd::prelude::*;
use crate::model::{AudioDeviceProbe, AudioDriverInfo, MidiDeviceInfo, MidiProbe};
use crate::text::{concat2, to_string, eq_ignore_ascii_case, eq_ignore_ascii_case_spec, trim_chars, trim_spec, str_eq,
    ascii_lower, string_from_chars, lower, decimal, u64_to_decimal, append_str};

verus! {

broadcast use vstd::string::group_string_axioms;

/// Safe Mode is asked for by a `--safe-mode` argument, in any case.
pub fn safe_mode_from_args(args: &Vec<String>) -> (r: bool)
    ensures
        r == exists|k: int| 0 <= k < args@.len() && eq_ignore_ascii_case_spec((#[trigger] args@[k])@, "--safe-mode"@),
{
    let mut i: usize = 0;
    while i < args.len()
        invariant
            i <= args.len(),
            forall|k: int| 0 <= k < i ==> !eq_ignore_ascii_case_spec((#[trigger] args@[k])@, "--safe-mode"@),
        decreases args.len() - i,
    {
        if eq_ignore_ascii_case(args[i].as_str(), "--safe-mode") {
            return true;
        }
        i += 1;
    }
    false
}

pub open spec fn ascii_lowered(s: Seq<char>) -> Seq<char> {
    s.map_values(|c: char| ascii_lower(c))
}

/// Whether the Safe Mode environment value turns Safe Mode on: `1`,
/// `true`, `yes` or `on`, trimmed, in any ASCII case.
pub fn safe_mode_env_value(value: &str) -> (r: bool)
    ensures
        r == ({
            let v = ascii_lowered(trim_spec(value@));
            v == "1"@ || v == "true"@ || v == "yes"@ || v == "on"@
        }),
{
    let t = trim_chars(value);
    let mut lowered: Vec<char> = Vec::new();
    let mut i: usize = 0;
    while i < t.len()
        invariant
            i <= t.len(),
            lowered@ == ascii_lowered(t@.take(i as int)),
        decreases t.len() - i,
    {
        lowered.push(lower(t[i]));
        assert(ascii_lowered(t@.take(i as int + 1)) =~= ascii_lowered(t@.take(i as int)).push(ascii_lower(t@[i as int])));
        i += 1;
    }
    assert(t@.take(t.len() as int) =~= t@);
    let v = string_from_chars(&lowered);
    str_eq(v.as_str(), "1") || str_eq(v.as_str(), "true") || str_eq(v.as_str(), "yes") || str_eq(v.as_str(), "on")
}

/// The message for a poisoned state lock, with the lock error's text.
pub fn lock_error(detail: &str) -> (m: String)
    ensures
        m@ == "An internal state lock was poisoned: "@ + detail@,
{
    concat2("An internal state lock was poisoned: ", detail)
}

/// The non-empty lines of the probe's output, in order.
pub open spec fn probe_lines_spec(bytes: Seq<u8>) -> Seq<Seq<u8>>
    decreases bytes.len(),
{
    lines_from(bytes, bytes.len() as int)
}

/// The lines of the first `n` bytes: `current` is the line still open.
pub open spec fn lines_from(bytes: Seq<u8>, n: int) -> Seq<Seq<u8>>
    decreases n,
{
    if n <= 0 {
        seq![]
    } else {
        let (done, _) = split_prefix(bytes, n);
        let open = split_prefix(bytes, n).1;
        if open.len() > 0 { done.push(open) } else { done }
    }
}

/// The finished non-empty lines and the open line after `n` bytes.
pub open spec fn split_prefix(bytes: Seq<u8>, n: int) -> (Seq<Seq<u8>>, Seq<u8>)
    decreases n,
{
    if n <= 0 {
        (seq![], seq![])
    } else {
        let (done, open) = split_prefix(bytes, n - 1);
        if bytes[n - 1] == 10u8 {
            (if open.len() > 0 { done.push(open) } else { done }, seq![])
        } else {
            (done, open.push(bytes[n - 1]))
        }
    }
}

/// Splits the probe's output at newlines and drops the empty lines.
pub fn probe_lines(bytes: &[u8]) -> (lines: Vec<Vec<u8>>)
    ensures
        lines@.map_values(|l: Vec<u8>| l@) == lines_from(bytes@, bytes@.len() as int),
{
    let mut lines: Vec<Vec<u8>> = Vec::new();
    let mut open: Vec<u8> = Vec::new();
    let mut i: usize = 0;
    while i < bytes.len()
        invariant
            i <= bytes.len(),
            (lines@.map_values(|l: Vec<u8>| l@), open@) == split_prefix(bytes@, i as int),
        decreases bytes.len() - i,
    {
        let b = bytes[i];
        if b == 10u8 {
            if open.len() > 0 {
                let ghost before = lines@.map_values(|l: Vec<u8>| l@);
                let finished = open;
                open = Vec::new();
                lines.push(finished);
                assert(lines@.map_values(|l: Vec<u8>| l@) =~= before.push(finished@));
            } else {
                open = Vec::new();
            }
        } else {
            open.push(b);
        }
        i += 1;
    }
    if open.len() > 0 {
        let ghost before = lines@.map_values(|l: Vec<u8>| l@);
        let last = open;
        lines.push(last);
        assert(lines@.map_values(|l: Vec<u8>| l@) =~= before.push(last@));
    }
    lines
}

/// Checks the kind of the first readable probe message: there must be one,
/// and it must be an `audioDeviceProbe`.
pub fn check_probe_message(message_type: Option<&str>) -> (r: Result<(), String>)
    ensures
        match message_type {
            None => r matches Err(e) && e@ == "MIDI probe returned no readable device list."@,
            Some(t) => if t@ == "audioDeviceProbe"@ { r is Ok } else { r matches Err(e) && e@ == "MIDI probe returned an unexpected response."@ },
        },
{
    match message_type {
        None => Err(to_string("MIDI probe returned no readable device list.")),
        Some(t) => if str_eq(t, "audioDeviceProbe") { Ok(()) } else { Err(to_string("MIDI probe returned an unexpected response.")) },
    }
}

/// The MIDI probe shown to the user: empty in Safe Mode (which skips
/// discovery), otherwise the devices found and whether any was.
pub fn midi_probe_result(safe_mode: bool, inputs: Vec<MidiDeviceInfo>, outputs: Vec<MidiDeviceInfo>, refreshed_at_ms: u64) -> (p: MidiProbe)
    ensures
        p.refreshed_at_ms == refreshed_at_ms,
        safe_mode ==> p.inputs@.len() == 0 && p.outputs@.len() == 0 && p.message@ == "Safe Mode skipped MIDI discovery."@,
        !safe_mode ==> p.inputs@ == inputs@ && p.outputs@ == outputs@ && p.message@ == if inputs@.len() == 0 && outputs@.len() == 0 {
            "No MIDI devices are currently visible to Windows."@
        } else {
            "MIDI device list refreshed."@
        },
{
    if safe_mode {
        return MidiProbe { inputs: Vec::new(), outputs: Vec::new(), refreshed_at_ms, message: to_string("Safe Mode skipped MIDI discovery.") };
    }
    let empty = inputs.len() == 0 && outputs.len() == 0;
    MidiProbe {
        inputs,
        outputs,
        refreshed_at_ms,
        message: if empty { to_string("No MIDI devices are currently visible to Windows.") } else { to_string("MIDI device list refreshed.") },
    }
}

/// The audio device probe shown to the user: empty in Safe Mode, otherwise
/// the drivers and MIDI devices found.
pub fn audio_probe_result(
    safe_mode: bool,
    drivers: Vec<AudioDriverInfo>,
    midi_inputs: Vec<MidiDeviceInfo>,
    midi_outputs: Vec<MidiDeviceInfo>,
    refreshed_at_ms: u64,
) -> (p: AudioDeviceProbe)
    ensures
        p.refreshed_at_ms == refreshed_at_ms,
        safe_mode ==> p.drivers@.len() == 0 && p.midi_inputs@.len() == 0 && p.midi_outputs@.len() == 0
            && p.message@ == "Safe Mode skipped audio and MIDI device discovery."@,
        !safe_mode ==> p.drivers@ == drivers@ && p.midi_inputs@ == midi_inputs@ && p.midi_outputs@ == midi_outputs@
            && p.message@ == "Audio and MIDI device list refreshed."@,
{
    if safe_mode {
        return AudioDeviceProbe {
            drivers: Vec::new(),
            midi_inputs: Vec::new(),
            midi_outputs: Vec::new(),
            refreshed_at_ms,
            message: to_string("Safe Mode skipped audio and MIDI device discovery."),
        };
    }
    AudioDeviceProbe { drivers, midi_inputs, midi_outputs, refreshed_at_ms, message: to_string("Audio and MIDI device list refreshed.") }
}

/// A failed session operation.
#[derive(Clone, Debug)]
pub enum AdapterError {
    Conflict { expected_sequence: u64, current_sequence: u64 },
    ProjectConflict { expected_project_id: String, current_project_id: String },
    RuntimeUnavailable(String),
    CommandFailed(String),
}

pub open spec fn adapter_error_text(e: AdapterError) -> Seq<char> {
    match e {
        AdapterError::Conflict { expected_sequence, current_sequence } =>
            "canonical state changed: expected sequence "@ + decimal(expected_sequence as nat) + ", current sequence "@ + decimal(current_sequence as nat),
        AdapterError::ProjectConflict { expected_project_id, current_project_id } =>
            "active project changed: expected "@ + expected_project_id@ + ", current "@ + current_project_id@,
        AdapterError::RuntimeUnavailable(m) => m@,
        AdapterError::CommandFailed(m) => m@,
    }
}

/// The error codes of the control protocol that carry a plain message.
#[derive(Clone, Copy, Debug, PartialEq, Eq, Structural)]
pub enum ErrorCode {
    RuntimeUnavailable,
    CommandFailed,
}

/// The control-protocol error a failed session operation is reported as:
/// a sequence conflict, a project conflict, or a code with a message.
#[derive(Clone, Debug)]
pub enum ProtocolError {
    Conflict { expected_sequence: u64, current_sequence: u64 },
    ProjectConflict { expected_project_id: String, current_project_id: String },
    Coded { code: ErrorCode, message: String },
}

impl AdapterError {
    /// A command that failed.
    pub fn command(message: String) -> (e: AdapterError)
        ensures
            e == AdapterError::CommandFailed(message),
    {
        AdapterError::CommandFailed(message)
    }

    /// A runtime that is unavailable.
    pub fn runtime(message: String) -> (e: AdapterError)
        ensures
            e == AdapterError::RuntimeUnavailable(message),
    {
        AdapterError::RuntimeUnavailable(message)
    }

    /// The control-protocol error this failure is reported as: conflicts
    /// keep their sequences or project ids, an unavailable runtime and a
    /// failed command keep their message under their own code.
    pub fn protocol_error(&self) -> (p: ProtocolError)
        ensures
            match *self {
                AdapterError::Conflict { expected_sequence, current_sequence } =>
                    p == (ProtocolError::Conflict { expected_sequence, current_sequence }),
                AdapterError::ProjectConflict { expected_project_id, current_project_id } =>
                    p matches ProtocolError::ProjectConflict { expected_project_id: e, current_project_id: c }
                        && e@ == expected_project_id@ && c@ == current_project_id@,
                AdapterError::RuntimeUnavailable(m) =>
                    p matches ProtocolError::Coded { code, message } && code == ErrorCode::RuntimeUnavailable && message@ == m@,
                AdapterError::CommandFailed(m) =>
                    p matches ProtocolError::Coded { code, message } && code == ErrorCode::CommandFailed && message@ == m@,
            },
    {
        match self {
            AdapterError::Conflict { expected_sequence, current_sequence } =>
                ProtocolError::Conflict { expected_sequence: *expected_sequence, current_sequence: *current_sequence },
            AdapterError::ProjectConflict { expected_project_id, current_project_id } =>
                ProtocolError::ProjectConflict { expected_project_id: expected_project_id.clone(), current_project_id: current_project_id.clone() },
            AdapterError::RuntimeUnavailable(m) => ProtocolError::Coded { code: ErrorCode::RuntimeUnavailable, message: m.clone() },
            AdapterError::CommandFailed(m) => ProtocolError::Coded { code: ErrorCode::CommandFailed, message: m.clone() },
        }
    }

    /// The error's message.
    pub fn message(&self) -> (m: String)
        ensures
            m@ == adapter_error_text(*self),
    {
        match self {
            AdapterError::Conflict { expected_sequence, current_sequence } => {
                let mut m = to_string("canonical state changed: expected sequence ");
                let e = u64_to_decimal(*expected_sequence);
                append_str(&mut m, e.as_str());
                append_str(&mut m, ", current sequence ");
                let c = u64_to_decimal(*current_sequence);
                append_str(&mut m, c.as_str());
                m
            },
            AdapterError::ProjectConflict { expected_project_id, current_project_id } => {
                let mut m = concat2("active project changed: expected ", expected_project_id.as_str());
                append_str(&mut m, ", current ");
                append_str(&mut m, current_project_id.as_str());
                m
            },
            AdapterError::RuntimeUnavailable(m) => m.clone(),
            AdapterError::CommandFailed(m) => m.clone(),
        }
    }
}

} // verus!
