//! The line protocol of the isolated native audio process: classification of
//! status and error replies, the audio-state vocabulary, and the recovery
//! decision for a lost process.

use vstd::prelude::*;
use crate::model::AudioState;
use crate::text::{concat3, contains_seq, opt_view, str_contains, str_eq, to_string, append_str, concat2};

verus! {

broadcast use vstd::string::group_string_axioms;

/// The scope that faults the audio engine rather than failing one command.
pub open spec fn device_scope() -> Seq<char> {
    "audioDevice"@
}

/// Classification of a native error: whether it faults the engine, and the
/// user-facing detail.
pub open spec fn native_error_spec(scope: Seq<char>, message: Seq<char>) -> (bool, Seq<char>) {
    if scope == device_scope() {
        (true, "Native audio device error: "@ + message + ". Saved data remains safe."@)
    } else {
        (false, "Native "@ + scope + " command failed: "@ + message + ". Audio and saved data remain safe."@)
    }
}

/// Classifies a native error into whether it faults the engine (device
/// errors) and the message to show.
pub fn render_native_error(scope: &str, message: &str) -> (res: (bool, String))
    ensures
        (res.0, res.1@) == native_error_spec(scope@, message@),
{
    if str_eq(scope, "audioDevice") {
        let mut detail = concat2("Native audio device error: ", message);
        append_str(&mut detail, ". Saved data remains safe.");
        (true, detail)
    } else {
        let mut detail = concat3("Native ", scope, " command failed: ");
        append_str(&mut detail, message);
        append_str(&mut detail, ". Audio and saved data remain safe.");
        (false, detail)
    }
}

/// Whether an error means the native process is gone and must be restarted.
pub open spec fn restart_required_spec(error: Seq<char>) -> bool {
    contains_seq(error, "could not reach the isolated audio process"@)
        || contains_seq(error, "Native audio is unavailable"@)
        || contains_seq(error, "did not acknowledge the command"@)
}

/// Recognizes errors that mean the transport to the native process was lost.
pub fn sidecar_restart_required(error: &str) -> (res: bool)
    ensures
        res == restart_required_spec(error@),
{
    str_contains(error, "could not reach the isolated audio process")
        || str_contains(error, "Native audio is unavailable")
        || str_contains(error, "did not acknowledge the command")
}

/// A classified line from the native process.
#[derive(Debug)]
pub enum NativeLine {
    /// An `audioStatus` line; its payload is read by the caller.
    Status { request_id: Option<u64> },
    /// An `error` line, classified by scope.
    Error { request_id: Option<u64>, fault: bool, detail: String },
}

/// Classification of a decoded native JSON object by its `type`, `requestId`,
/// `scope` and `message` fields; `None` for unrecognized types. An error
/// without a scope is a `protocol` error; one without a message reports
/// `Unknown native error.`.
pub open spec fn classify_spec(
    message_type: Option<Seq<char>>,
    scope: Option<Seq<char>>,
    message: Option<Seq<char>>,
) -> Option<(bool, Option<(bool, Seq<char>)>)> {
    match message_type {
        Some(t) => if t == "audioStatus"@ {
            Some((true, None))
        } else if t == "error"@ {
            let s = match scope { Some(s) => s, None => "protocol"@ };
            let m = match message { Some(m) => m, None => "Unknown native error."@ };
            Some((false, Some(native_error_spec(s, m))))
        } else {
            None
        },
        None => None,
    }
}

/// Classifies one decoded native reply.
pub fn classify_native_line(
    message_type: Option<&str>,
    request_id: Option<u64>,
    scope: Option<&str>,
    message: Option<&str>,
) -> (res: Option<NativeLine>)
    ensures
        match classify_spec(
            match message_type { Some(t) => Some(t@), None => None },
            match scope { Some(s) => Some(s@), None => None },
            match message { Some(m) => Some(m@), None => None },
        ) {
            None => res is None,
            Some((true, _)) => res == Some(NativeLine::Status { request_id }),
            Some((false, c)) => res matches Some(NativeLine::Error { request_id: r, fault, detail })
                && r == request_id && c == Some((fault, detail@)),
        },
{
    let t = match message_type {
        Some(t) => t,
        None => return None,
    };
    if str_eq(t, "audioStatus") {
        Some(NativeLine::Status { request_id })
    } else if str_eq(t, "error") {
        let s = match scope {
            Some(s) => s,
            None => "protocol",
        };
        let m = match message {
            Some(m) => m,
            None => "Unknown native error.",
        };
        let (fault, detail) = render_native_error(s, m);
        Some(NativeLine::Error { request_id, fault, detail })
    } else {
        None
    }
}

/// Whether `bytes` is a JSON text.
pub uninterp spec fn json_parses(bytes: Seq<u8>) -> bool;

/// The text of field `key` of the JSON object in `bytes`; `None` when the
/// bytes are not JSON, or the field is absent or not a string.
pub uninterp spec fn json_text_field(bytes: Seq<u8>, key: Seq<char>) -> Option<Seq<char>>;

/// The unsigned number of field `key` of the JSON object in `bytes`; `None`
/// when the bytes are not JSON, or the field is absent or not such a number.
pub uninterp spec fn json_u64_field(bytes: Seq<u8>, key: Seq<char>) -> Option<u64>;

/// Whether `bytes` parses as JSON (`serde_json::from_slice::<Value>`).
#[verifier::external_body]
fn is_json(bytes: &[u8]) -> (r: bool)
    ensures
        r == json_parses(bytes@),
{
    serde_json::from_slice::<serde_json::Value>(bytes).is_ok()
}

/// Field `key` of the JSON in `bytes` as text (`serde_json::from_slice`,
/// then `Value::get` and `Value::as_str`).
#[verifier::external_body]
fn json_text(bytes: &[u8], key: &str) -> (r: Option<String>)
    ensures
        opt_view(r) == json_text_field(bytes@, key@),
{
    let payload = serde_json::from_slice::<serde_json::Value>(bytes).ok()?;
    payload.get(key).and_then(serde_json::Value::as_str).map(str::to_owned)
}

/// Field `key` of the JSON in `bytes` as an unsigned number
/// (`serde_json::from_slice`, then `Value::get` and `Value::as_u64`).
#[verifier::external_body]
fn json_u64(bytes: &[u8], key: &str) -> (r: Option<u64>)
    ensures
        r == json_u64_field(bytes@, key@),
{
    let payload = serde_json::from_slice::<serde_json::Value>(bytes).ok()?;
    payload.get(key).and_then(serde_json::Value::as_u64)
}

/// Parses one line printed by the native process: a status reply, an error
/// classified by scope, or `None` for text that is not JSON, a message type
/// that is not recognized, or a status reply whose payload does not parse
/// as a status (`status_payload_parses`, which the host reads).
pub fn parse_native_line(bytes: &[u8], status_payload_parses: bool) -> (res: Option<NativeLine>)
    ensures
        !json_parses(bytes@) ==> res is None,
        json_parses(bytes@) ==> match classify_spec(json_text_field(bytes@, "type"@), json_text_field(bytes@, "scope"@),
            json_text_field(bytes@, "message"@)) {
            None => res is None,
            Some((true, _)) => if status_payload_parses {
                res == Some(NativeLine::Status { request_id: json_u64_field(bytes@, "requestId"@) })
            } else {
                res is None
            },
            Some((false, c)) => res matches Some(NativeLine::Error { request_id: r, fault, detail })
                && r == json_u64_field(bytes@, "requestId"@) && c == Some((fault, detail@)),
        },
{
    if !is_json(bytes) {
        return None;
    }
    let message_type = json_text(bytes, "type");
    let request_id = json_u64(bytes, "requestId");
    let scope = json_text(bytes, "scope");
    let message = json_text(bytes, "message");
    let t = match &message_type { Some(t) => Some(t.as_str()), None => None };
    let sc = match &scope { Some(s) => Some(s.as_str()), None => None };
    let m = match &message { Some(m) => Some(m.as_str()), None => None };
    let line = classify_native_line(t, request_id, sc, m);
    match line {
        Some(NativeLine::Status { request_id }) => if status_payload_parses { Some(NativeLine::Status { request_id }) } else { None },
        other => other,
    }
}

/// The audio state named by a native status word; unknown words are offline.
pub open spec fn audio_state_spec(word: Seq<char>) -> AudioState {
    if word == "ready"@ { AudioState::Ready }
    else if word == "muted"@ { AudioState::Muted }
    else if word == "starting"@ { AudioState::Starting }
    else if word == "faulted"@ { AudioState::Faulted }
    else { AudioState::Offline }
}

/// Maps a native status word onto the audio state.
pub fn audio_state_from_native(word: &str) -> (s: AudioState)
    ensures
        s == audio_state_spec(word@),
{
    if str_eq(word, "ready") {
        AudioState::Ready
    } else if str_eq(word, "muted") {
        AudioState::Muted
    } else if str_eq(word, "starting") {
        AudioState::Starting
    } else if str_eq(word, "faulted") {
        AudioState::Faulted
    } else {
        AudioState::Offline
    }
}

/// The message shown for a state when the native process sent none.
pub open spec fn fallback_message_spec(state: AudioState) -> Seq<char> {
    match state {
        AudioState::Ready => "Native audio is ready through the safety chain."@,
        AudioState::Muted => "Native audio is connected and emergency-muted."@,
        AudioState::Starting => "Native audio is starting safely."@,
        AudioState::Faulted => "Native audio reported a fault; saved data is safe."@,
        AudioState::Offline => "Native audio is offline; saved data is safe."@,
    }
}

/// The status message: the native message when present and non-empty,
/// otherwise the state's fallback.
pub fn status_message(native: Option<String>, state: AudioState) -> (m: String)
    ensures
        m@ == match opt_view(native) {
            Some(n) => if n.len() > 0 { n } else { fallback_message_spec(state) },
            None => fallback_message_spec(state),
        },
{
    if let Some(n) = native {
        let shown = n.as_str();
        if !shown.is_empty() {
            return n;
        }
    }
    match state {
        AudioState::Ready => to_string("Native audio is ready through the safety chain."),
        AudioState::Muted => to_string("Native audio is connected and emergency-muted."),
        AudioState::Starting => to_string("Native audio is starting safely."),
        AudioState::Faulted => to_string("Native audio reported a fault; saved data is safe."),
        AudioState::Offline => to_string("Native audio is offline; saved data is safe."),
    }
}

/// The recovery label of a recording: the native label when given, otherwise
/// `clean` without dropped blocks and `partial` with them.
pub fn recovery_status_label(native: Option<String>, dropped_blocks: Option<u64>) -> (m: String)
    ensures
        m@ == match opt_view(native) {
            Some(n) => n,
            None => if match dropped_blocks { Some(d) => d, None => 0 } == 0 { "clean"@ } else { "partial"@ },
        },
{
    match native {
        Some(n) => n,
        None => {
            let dropped = match dropped_blocks {
                Some(d) => d,
                None => 0,
            };
            if dropped == 0 {
                to_string("clean")
            } else {
                to_string("partial")
            }
        },
    }
}

/// A reported MIDI note number, kept only when it fits a byte.
pub fn midi_note_from_native(note: Option<i32>) -> (r: Option<u8>)
    ensures
        r == match note {
            Some(n) => if 0 <= n <= 255 { Some(n as u8) } else { None },
            None => None,
        },
{
    match note {
        Some(n) => if 0 <= n && n <= 255 {
            Some(n as u8)
        } else {
            None
        },
        None => None,
    }
}

/// Largest plugin state blob accepted from the native process, in bytes.
pub const MAX_PLUGIN_STATE_BYTES: usize = 4_000_000;

/// Keeps plugin state only when it is within the size limit.
pub fn bounded_plugin_state(state: Option<String>) -> (r: Option<String>)
    ensures
        opt_view(r) == match state {
            Some(s) => if (vstd::utf8::encode_utf8(s@).len() as usize) <= 4_000_000 { Some(s@) } else { None },
            None => None,
        },
{
    match state {
        Some(s) => if s.as_str().len() <= MAX_PLUGIN_STATE_BYTES {
            Some(s)
        } else {
            None
        },
        None => None,
    }
}

/// Effect of a classified error on the shown audio state: device faults set
/// the state to `Faulted`; other errors leave the state unchanged. In both
/// cases the message becomes the error detail.
pub fn apply_native_error(state: AudioState, fault: bool, detail: String) -> (r: (AudioState, String))
    ensures
        r.0 == (if fault { AudioState::Faulted } else { state }),
        r.1@ == detail@,
{
    if fault {
        (AudioState::Faulted, detail)
    } else {
        (state, detail)
    }
}

} // verus!
