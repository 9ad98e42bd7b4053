//! Recording Inbox index rules: reading a take manifest's canonical capture,
//! validating a manifest, recovering a take whose writer was interrupted,
//! recording the produced asset ids, and the take identifiers and names used
//! by Inbox management.

use vstd::prelude::*;
use crate::asset::AssetId;
use crate::path::{path_components, is_single_name, joined, PathPart, single_name_text, two_name_text, join_path, verbatim, plain_segment,
    no_question_mark, lemma_join_keeps_no_question_mark};
use crate::recording::{DropoutInformation, RecordingCapture, RecordingCaptureStatus, status_name, allows_spec};
use crate::text::{concat2, concat3, to_string, append_str, opt_view, str_eq, strip_prefix_spec, strip_prefix_or_self, trim_chars, trim_spec, contains_seq, lowercase, to_lowercase, str_contains, trim,
    text_le, text_le_exec, lemma_text_le_total, lemma_text_le_transitive};

verus! {

broadcast use vstd::string::group_string_axioms;

/// The take manifest written next to a recording's audio files. Legacy
/// top-level fields are kept as written; the nested capture is the canonical
/// record. `sample_rate` is the legacy rate already rounded to whole hertz.
pub struct RecordingManifest<P> {
    pub state: Option<String>,
    pub started_at: Option<String>,
    pub updated_at: Option<String>,
    pub raw_file: Option<String>,
    pub processed_file: Option<String>,
    pub sample_rate: Option<u32>,
    pub samples_written: Option<u64>,
    pub dropped_blocks: Option<u64>,
    pub missing_samples: Option<u64>,
    pub dropout_start_sample: Option<u64>,
    pub dropout_end_sample: Option<u64>,
    pub recovery_status: Option<String>,
    pub capture: Option<RecordingCapture<P>>,
}

/// A copy of an optional asset id.
pub fn copy_opt_id(o: &Option<AssetId>) -> (r: Option<AssetId>)
    ensures
        id_view(r) == id_view(*o),
{
    match o {
        Some(a) => Some(a.copy_id()),
        None => None,
    }
}

/// The view of an optional asset id.
pub open spec fn id_view(o: Option<AssetId>) -> Option<Seq<char>> {
    match o {
        Some(a) => Some(a@),
        None => None,
    }
}

/// The canonical product ids (raw, processed, MIDI) held by the manifest's
/// capture; a manifest without a capture holds none.
pub fn canonical_asset_ids<P>(manifest: &RecordingManifest<P>) -> (ids: (Option<AssetId>, Option<AssetId>, Option<AssetId>))
    ensures
        match manifest.capture {
            Some(c) => id_view(ids.0) == id_view(c.raw_audio_asset_id) && id_view(ids.1) == id_view(c.processed_audio_asset_id)
                && id_view(ids.2) == id_view(c.midi_asset_id),
            None => ids.0 is None && ids.1 is None && ids.2 is None,
        },
{
    match &manifest.capture {
        Some(c) => (copy_opt_id(&c.raw_audio_asset_id), copy_opt_id(&c.processed_audio_asset_id), copy_opt_id(&c.midi_asset_id)),
        None => (None, None, None),
    }
}

/// The state shown for a manifest: its capture's status, or `invalid`.
pub open spec fn current_state_spec<P>(m: RecordingManifest<P>) -> Seq<char> {
    match m.capture {
        Some(c) => status_name(c.status),
        None => "invalid"@,
    }
}

/// The state of the manifest's capture, or `invalid` without one.
pub fn current_state<P>(manifest: &RecordingManifest<P>) -> (s: String)
    ensures
        s@ == current_state_spec(*manifest),
{
    match &manifest.capture {
        Some(c) => to_string(c.status.as_str()),
        None => to_string("invalid"),
    }
}

/// The capture's sample rate.
pub fn current_sample_rate<P>(manifest: &RecordingManifest<P>) -> (r: Option<u32>)
    ensures
        r == match manifest.capture { Some(c) => c.sample_rate, None => None },
{
    match &manifest.capture {
        Some(c) => c.sample_rate,
        None => None,
    }
}

/// The capture's dropout diagnostics; all zero without a capture.
pub fn current_dropout_information<P>(manifest: &RecordingManifest<P>) -> (d: DropoutInformation)
    ensures
        d == match manifest.capture { Some(c) => c.dropout_information, None => DropoutInformation::default_spec() },
{
    match &manifest.capture {
        Some(c) => c.dropout_information,
        None => DropoutInformation::empty(),
    }
}

/// Checks that a take file is declared and is a plain, non-blank file name
/// inside the take directory (no separators, `.`/`..`, or roots).
pub fn check_take_file_name(file: Option<&str>, label: &str) -> (r: Result<(), String>)
    ensures
        file is None ==> (r matches Err(e) && e@ == label@ + " file is not declared in the take manifest."@),
        file is Some && trim_spec(file->0@).len() == 0 ==> (r matches Err(e)
            && e@ == label@ + " file must be a safe file name inside the take directory."@),
        r is Err ==> (r matches Err(e) && (e@ == label@ + " file is not declared in the take manifest."@
            || e@ == label@ + " file must be a safe file name inside the take directory."@)),
{
    let file = match file {
        Some(f) => f,
        None => return Err(concat2(label, " file is not declared in the take manifest.")),
    };
    let parts = path_components(file);
    let single = is_single_name(&parts);
    let t = trim_chars(file);
    if !single || t.len() == 0 {
        return Err(concat2(label, " file must be a safe file name inside the take directory."));
    }
    Ok(())
}

/// The message for a declared take file that is not on disk.
pub fn missing_take_file_message(label: &str) -> (m: String)
    ensures
        m@ == label@ + " file is missing from the take directory."@,
{
    concat2(label, " file is missing from the take directory.")
}

/// The outcome of validating a manifest, given how its declared raw and
/// processed files resolved.
pub open spec fn validate_manifest_spec<P>(
    m: RecordingManifest<P>,
    raw: Result<Seq<char>, Seq<char>>,
    processed: Result<Seq<char>, Seq<char>>,
) -> Result<(Seq<char>, Seq<char>), Seq<char>> {
    let state = current_state_spec(m);
    if !(state == "recording"@ || state == "completed"@ || state == "recoverable"@ || state == "failed"@) {
        Err("Recording state '"@ + state + "' is not supported."@)
    } else if state == "failed"@ && m.capture is Some {
        Ok((Seq::empty(), Seq::empty()))
    } else if state == "completed"@ && (match m.capture { Some(c) => c.dropout_information.samples_written, None => 0 }) == 0 {
        Err("Completed recording contains no audio samples."@)
    } else if state == "completed"@ && (match m.capture { Some(c) => c.sample_rate, None => None }) is None {
        Err("Completed recording has no valid sample rate."@)
    } else if state == "completed"@ && m.capture is Some && m.capture->0.status == RecordingCaptureStatus::Completed {
        Ok((Seq::empty(), Seq::empty()))
    } else {
        match raw {
            Err(e) => Err(e),
            Ok(r) => match processed {
                Err(e) => Err(e),
                Ok(p) => Ok((r, p)),
            },
        }
    }
}

/// The view of a text result.
pub open spec fn res_view(r: Result<String, String>) -> Result<Seq<char>, Seq<char>> {
    match r {
        Ok(s) => Ok(s@),
        Err(e) => Err(e@),
    }
}

/// Validates a manifest. A failed capture and a completed capture are
/// accepted without their files (missing files stay visible as missing
/// dependencies); a completed capture needs samples and a sample rate; other
/// supported states need both declared files, resolved as `raw` and
/// `processed`.
pub fn validate_manifest<P>(
    manifest: &RecordingManifest<P>,
    raw: Result<String, String>,
    processed: Result<String, String>,
) -> (r: Result<(String, String), String>)
    ensures
        match r {
            Ok((a, b)) => validate_manifest_spec(*manifest, res_view(raw), res_view(processed)) == Ok::<(Seq<char>, Seq<char>), Seq<char>>((a@, b@)),
            Err(e) => validate_manifest_spec(*manifest, res_view(raw), res_view(processed)) == Err::<(Seq<char>, Seq<char>), Seq<char>>(e@),
        },
{
    let state = current_state(manifest);
    let st = state.as_str();
    if !(str_eq(st, "recording") || str_eq(st, "completed") || str_eq(st, "recoverable") || str_eq(st, "failed")) {
        return Err(concat3("Recording state '", st, "' is not supported."));
    }
    if str_eq(st, "failed") && manifest.capture.is_some() {
        return Ok((String::new(), String::new()));
    }
    if str_eq(st, "completed") {
        if current_dropout_information(manifest).samples_written == 0 {
            return Err(to_string("Completed recording contains no audio samples."));
        }
        if current_sample_rate(manifest).is_none() {
            return Err(to_string("Completed recording has no valid sample rate."));
        }
        let completed = match &manifest.capture {
            Some(c) => c.status == RecordingCaptureStatus::Completed,
            None => false,
        };
        if completed {
            return Ok((String::new(), String::new()));
        }
    }
    let raw_path = match raw {
        Ok(p) => p,
        Err(e) => return Err(e),
    };
    let processed_path = match processed {
        Ok(p) => p,
        Err(e) => return Err(e),
    };
    Ok((raw_path, processed_path))
}

/// Recovers a take whose native writer was interrupted: a manifest still in
/// the `recording` state whose raw file holds `raw_samples` whole frames (as
/// read from the partial WAV) becomes recoverable. The capture (or a new one
/// named after `directory`, started at `now_ms` for session `unknown`) moves
/// to `Recoverable` if it was recording, takes the legacy sample rate if it
/// had none, and records the sample count. Returns whether anything changed.
pub fn recover_interrupted_manifest<P>(
    manifest: &mut RecordingManifest<P>,
    raw_samples: Option<u64>,
    directory: &str,
    now_ms: u64,
) -> (changed: bool)
    ensures
        changed == (opt_view(old(manifest).state) == Some("recording"@) && old(manifest).raw_file is Some && raw_samples is Some),
        !changed ==> *final(manifest) == *old(manifest),
        changed ==> {
            let c = final(manifest).capture->0;
            &&& final(manifest).capture is Some
            &&& opt_view(final(manifest).state) == Some("recoverable"@)
            &&& final(manifest).samples_written == raw_samples
            &&& opt_view(final(manifest).recovery_status) == Some("partial"@)
            &&& c.dropout_information.samples_written == raw_samples->0
            &&& match old(manifest).capture {
                Some(o) => {
                    &&& c.capture_id == o.capture_id
                    &&& c.status == (if o.status == RecordingCaptureStatus::Recording { RecordingCaptureStatus::Recoverable } else { o.status })
                    &&& c.sample_rate == (if o.sample_rate is None { old(manifest).sample_rate } else { o.sample_rate })
                },
                None => {
                    &&& c.capture_id@ == "capture:"@ + directory@
                    &&& c.session_id@ == "unknown"@
                    &&& c.started_at_ms == now_ms
                    &&& c.status == RecordingCaptureStatus::Recoverable
                    &&& c.sample_rate == old(manifest).sample_rate
                },
            }
            &&& final(manifest).raw_file == old(manifest).raw_file
            &&& final(manifest).processed_file == old(manifest).processed_file
        },
{
    let recording = match &manifest.state {
        Some(s) => str_eq(s.as_str(), "recording"),
        None => false,
    };
    if !recording || manifest.raw_file.is_none() {
        return false;
    }
    let samples = match raw_samples {
        Some(n) => n,
        None => return false,
    };
    let mut capture = match manifest.capture.take() {
        Some(c) => c,
        None => RecordingCapture::start(concat2("capture:", directory), to_string("unknown"), now_ms),
    };
    if capture.status == RecordingCaptureStatus::Recording {
        let _ = capture.transition(RecordingCaptureStatus::Recoverable, now_ms);
    }
    if capture.sample_rate.is_none() {
        capture.sample_rate = manifest.sample_rate;
    }
    capture.dropout_information.samples_written = samples;
    manifest.capture = Some(capture);
    manifest.state = Some(to_string("recoverable"));
    manifest.samples_written = Some(samples);
    manifest.recovery_status = Some(to_string("partial"));
    true
}

/// The status a finishing capture settles in, from the legacy state word:
/// `recoverable` and `failed` are kept, anything else completes.
pub open spec fn finish_target(state: Option<Seq<char>>) -> RecordingCaptureStatus {
    if state == Some("recoverable"@) {
        RecordingCaptureStatus::Recoverable
    } else if state == Some("failed"@) {
        RecordingCaptureStatus::Failed
    } else {
        RecordingCaptureStatus::Completed
    }
}

/// The status after finishing from `s`: a recording capture passes through
/// `Completing` to the target; a completing one goes to the target; any
/// other status is kept.
pub open spec fn finished_status(s: RecordingCaptureStatus, target: RecordingCaptureStatus) -> RecordingCaptureStatus {
    if s == RecordingCaptureStatus::Recording || s == RecordingCaptureStatus::Completing {
        target
    } else {
        s
    }
}

/// Stores the canonical product ids in the take's capture once recording
/// stops, and settles the capture's status. The capture (or a new one named
/// after `directory`) takes the legacy sample rate and dropout counters of
/// the manifest; the audio files are never touched.
pub fn save_asset_ids<P>(
    manifest: &mut RecordingManifest<P>,
    directory: &str,
    raw_asset_id: Option<AssetId>,
    processed_asset_id: Option<AssetId>,
    midi_asset_id: Option<AssetId>,
    now_ms: u64,
)
    ensures
        final(manifest).capture is Some,
        ({
            let c = final(manifest).capture->0;
            let o = old(manifest);
            let start_status = match o.capture { Some(x) => x.status, None => RecordingCaptureStatus::Recording };
            &&& c.status == finished_status(start_status, finish_target(opt_view(o.state)))
            &&& c.sample_rate == o.sample_rate
            &&& c.raw_audio_asset_id == raw_asset_id
            &&& c.processed_audio_asset_id == processed_asset_id
            &&& c.midi_asset_id == midi_asset_id
            &&& c.dropout_information == (DropoutInformation {
                samples_written: match o.samples_written { Some(v) => v, None => 0 },
                dropped_blocks: match o.dropped_blocks { Some(v) => v, None => 0 },
                missing_samples: match o.missing_samples { Some(v) => v, None => 0 },
                dropout_start_sample: o.dropout_start_sample,
                dropout_end_sample: o.dropout_end_sample,
            })
            &&& match o.capture {
                Some(x) => c.capture_id == x.capture_id && c.session_id == x.session_id,
                None => c.capture_id@ == "capture:"@ + directory@ && c.session_id@ == "unknown"@ && c.started_at_ms == now_ms,
            }
            &&& (c.status == RecordingCaptureStatus::Completed && start_status != RecordingCaptureStatus::Completed) ==> c.completed_at_ms == Some(now_ms)
        }),
        final(manifest).state == old(manifest).state,
        final(manifest).raw_file == old(manifest).raw_file,
        final(manifest).processed_file == old(manifest).processed_file,
        final(manifest).samples_written == old(manifest).samples_written,
{
    let mut capture = match manifest.capture.take() {
        Some(c) => c,
        None => RecordingCapture::start(concat2("capture:", directory), to_string("unknown"), now_ms),
    };
    if capture.status == RecordingCaptureStatus::Recording {
        let _ = capture.transition(RecordingCaptureStatus::Completing, now_ms);
    }
    let target = match &manifest.state {
        Some(s) => if str_eq(s.as_str(), "recoverable") {
            RecordingCaptureStatus::Recoverable
        } else if str_eq(s.as_str(), "failed") {
            RecordingCaptureStatus::Failed
        } else {
            RecordingCaptureStatus::Completed
        },
        None => RecordingCaptureStatus::Completed,
    };
    if capture.status == RecordingCaptureStatus::Completing {
        let _ = capture.transition(target, now_ms);
    }
    capture.sample_rate = manifest.sample_rate;
    capture.raw_audio_asset_id = raw_asset_id;
    capture.processed_audio_asset_id = processed_asset_id;
    capture.midi_asset_id = midi_asset_id;
    capture.dropout_information = DropoutInformation {
        samples_written: match manifest.samples_written { Some(v) => v, None => 0 },
        dropped_blocks: match manifest.dropped_blocks { Some(v) => v, None => 0 },
        missing_samples: match manifest.missing_samples { Some(v) => v, None => 0 },
        dropout_start_sample: manifest.dropout_start_sample,
        dropout_end_sample: manifest.dropout_end_sample,
    };
    manifest.capture = Some(capture);
}

/// The recovery label shown for a take.
pub open spec fn recovery_label_spec<P>(m: RecordingManifest<P>, dropped_blocks: u64) -> Seq<char> {
    match m.capture {
        Some(c) => match c.status {
            RecordingCaptureStatus::Completed => if dropped_blocks == 0 { "clean"@ } else { "partial"@ },
            RecordingCaptureStatus::Failed => "failed"@,
            RecordingCaptureStatus::Recording | RecordingCaptureStatus::Completing => "recording"@,
            RecordingCaptureStatus::Recoverable => "partial"@,
        },
        None => match m.recovery_status {
            Some(r) => r@,
            None => if dropped_blocks == 0 { "clean"@ } else { "partial"@ },
        },
    }
}

/// The recovery label of a take: from its capture's status (completed takes
/// are `clean` without dropped blocks), else the legacy label, else `clean`
/// or `partial` by dropped blocks.
pub fn recovery_label<P>(manifest: &RecordingManifest<P>, dropped_blocks: u64) -> (label: String)
    ensures
        label@ == recovery_label_spec(*manifest, dropped_blocks),
{
    match &manifest.capture {
        Some(c) => match c.status {
            RecordingCaptureStatus::Completed => if dropped_blocks == 0 { to_string("clean") } else { to_string("partial") },
            RecordingCaptureStatus::Failed => to_string("failed"),
            RecordingCaptureStatus::Recording | RecordingCaptureStatus::Completing => to_string("recording"),
            RecordingCaptureStatus::Recoverable => to_string("partial"),
        },
        None => match &manifest.recovery_status {
            Some(r) => r.clone(),
            None => if dropped_blocks == 0 { to_string("clean") } else { to_string("partial") },
        },
    }
}

/// The error of checking a completed capture against the canonical asset
/// records, if any: raw and processed ids must be present, and each present
/// id (MIDI included) must have a record (`*_location` is the content
/// location of the record found for it).
pub open spec fn completed_assets_error(
    raw_asset_id: Option<Seq<char>>,
    processed_asset_id: Option<Seq<char>>,
    midi_asset_id: Option<Seq<char>>,
    raw_location: Option<Seq<char>>,
    processed_location: Option<Seq<char>>,
    midi_location: Option<Seq<char>>,
) -> Option<Seq<char>> {
    match (raw_asset_id, processed_asset_id) {
        (None, _) => Some("Completed recording has no canonical raw audio Asset ID."@),
        (Some(_), None) => Some("Completed recording has no canonical processed audio Asset ID."@),
        (Some(raw), Some(processed)) =>
            if raw_location is None {
                Some("Completed recording references an unknown raw audio Asset "@ + raw + "."@)
            } else if processed_location is None {
                Some("Completed recording references an unknown processed audio Asset "@ + processed + "."@)
            } else {
                match midi_asset_id {
                    Some(midi) => if midi_location is None {
                        Some("Completed recording references an unknown MIDI Asset "@ + midi + "."@)
                    } else {
                        None
                    },
                    None => None,
                }
            },
    }
}

pub open spec fn unit_error(r: Result<(), String>) -> Option<Seq<char>> {
    match r {
        Ok(()) => None,
        Err(e) => Some(e@),
    }
}

pub open spec fn opt_str_view(o: Option<&str>) -> Option<Seq<char>> {
    match o {
        Some(s) => Some(s@),
        None => None,
    }
}

pub open spec fn opt_id_ref_view(o: Option<&AssetId>) -> Option<Seq<char>> {
    match o {
        Some(a) => Some(a@),
        None => None,
    }
}

/// Checks a completed capture against the canonical asset records; see
/// `completed_assets_error`.
pub fn validate_completed_capture_assets(
    raw_asset_id: Option<&AssetId>,
    processed_asset_id: Option<&AssetId>,
    midi_asset_id: Option<&AssetId>,
    raw_location: Option<&str>,
    processed_location: Option<&str>,
    midi_location: Option<&str>,
) -> (r: Result<(), String>)
    ensures
        unit_error(r) == completed_assets_error(opt_id_ref_view(raw_asset_id), opt_id_ref_view(processed_asset_id),
            opt_id_ref_view(midi_asset_id), opt_str_view(raw_location), opt_str_view(processed_location), opt_str_view(midi_location)),
{
    let raw = match raw_asset_id {
        Some(r) => r,
        None => return Err(to_string("Completed recording has no canonical raw audio Asset ID.")),
    };
    let processed = match processed_asset_id {
        Some(p) => p,
        None => return Err(to_string("Completed recording has no canonical processed audio Asset ID.")),
    };
    if raw_location.is_none() {
        return Err(concat3("Completed recording references an unknown raw audio Asset ", raw.as_str(), "."));
    }
    if processed_location.is_none() {
        return Err(concat3("Completed recording references an unknown processed audio Asset ", processed.as_str(), "."));
    }
    if let Some(midi) = midi_asset_id {
        if midi_location.is_none() {
            return Err(concat3("Completed recording references an unknown MIDI Asset ", midi.as_str(), "."));
        }
    }
    Ok(())
}

/// A path for display, without the Windows verbatim prefix `\\?\`.
pub fn display_path(value: &str) -> (d: String)
    ensures
        d@ == strip_prefix_spec(value@, "\\\\?\\"@),
{
    strip_prefix_or_self(value, "\\\\?\\")
}

/// The take id of a take directory: `recording:` and the displayed path.
pub fn take_id_for(path: &str) -> (id: String)
    ensures
        id@ == "recording:"@ + strip_prefix_spec(path@, "\\\\?\\"@),
{
    let d = display_path(path);
    concat2("recording:", d.as_str())
}

/// Where a renamed take goes, once its directory was found in the Inbox
/// (`inbox` is the folder holding it, `None` when it could not be read): the
/// new name is checked first (see `validate_take_name`), then the take goes
/// to `<inbox>/<name>`; returns that path and the take id it will have.
pub fn rename(inbox: Option<&str>, new_name: &str) -> (r: Result<(String, String), String>)
    ensures
        trim_spec(new_name@).len() == 0 || trim_spec(new_name@) == "."@ || trim_spec(new_name@) == ".."@
            || two_name_text(trim_spec(new_name@)) ==> (r matches Err(e) && e@ == "New take name must be a single folder name without separators."@),
        single_name_text(trim_spec(new_name@)) && inbox is None ==> (r matches Err(e) && e@ == "Recording Inbox could not be resolved."@),
        single_name_text(trim_spec(new_name@)) && inbox is Some ==> r is Ok,
        r matches Ok((destination, id)) ==> id@ == "recording:"@ + strip_prefix_spec(destination@, "\\\\?\\"@)
            && (inbox is Some && !verbatim(inbox->0@) && single_name_text(trim_spec(new_name@)) ==> {
                &&& inbox->0@.is_prefix_of(destination@)
                &&& destination@.len() == inbox->0@.len() + trim_spec(new_name@).len()
                    || destination@.len() == inbox->0@.len() + trim_spec(new_name@).len() + 1
                &&& destination@.subrange(destination@.len() - trim_spec(new_name@).len(), destination@.len() as int) == trim_spec(new_name@)
            }),
{
    let name = match validate_take_name(new_name) {
        Ok(n) => n,
        Err(e) => return Err(e),
    };
    let dir = match inbox {
        Some(d) => d,
        None => return Err(to_string("Recording Inbox could not be resolved.")),
    };
    let destination = join_path(dir, name.as_str());
    let id = take_id_for(destination.as_str());
    Ok((destination, id))
}

/// The directory text a take id names: the id without its optional
/// `recording:` prefix, trimmed; an error when nothing is left.
pub fn inbox_take_text(take_id: &str) -> (r: Result<String, String>)
    ensures
        r is Err <==> trim_spec(strip_prefix_spec(take_id@, "recording:"@)).len() == 0,
        r matches Ok(t) ==> t@ == trim_spec(strip_prefix_spec(take_id@, "recording:"@)),
        r matches Err(e) ==> e@ == "Recording take id is empty."@,
{
    let directory = take_directory(take_id);
    let text = trim(directory.as_str());
    if text.as_str().is_empty() {
        return Err(to_string("Recording take id is empty."));
    }
    Ok(text)
}

/// Whether a resolved take may leave the Inbox: `relative` is its path
/// inside the resolved Inbox, by components (`None` when it is not inside
/// the Inbox); it must be exactly one plain name.
pub fn check_inbox_child(relative: Option<Vec<PathPart>>) -> (r: Result<(), String>)
    ensures
        match relative {
            None => r matches Err(e) && e@ == "Recording take is not inside the Inbox."@,
            Some(parts) => {
                &&& r is Ok <==> (parts@.len() == 1 && parts@[0] is Normal)
                &&& r matches Err(e) ==> e@ == "Recording take must be a direct child of the Inbox."@
            },
        },
{
    match relative {
        None => Err(to_string("Recording take is not inside the Inbox.")),
        Some(parts) => if is_single_name(&parts) {
            Ok(())
        } else {
            Err(to_string("Recording take must be a direct child of the Inbox."))
        },
    }
}

/// `destination` is `<data_root>/recordings/<area>/<name>`: the three
/// joins (see `joined`) of `recordings`, `area` and `name` onto the data root.
pub open spec fn moved_into(data_root: Seq<char>, area: Seq<char>, name: Seq<char>, destination: Seq<char>) -> bool {
    exists|recordings: Seq<char>, folder: Seq<char>|
        #![trigger joined(data_root, "recordings"@, recordings), joined(recordings, area, folder)]
        joined(data_root, "recordings"@, recordings) && joined(recordings, area, folder) && joined(folder, name, destination)
}

/// Where an Inbox take is moved out of the Inbox: `<data_root>/recordings/
/// <area>/<name>` (`area` is `archive` or `library`), named after the take's
/// folder (`None` when that name is not text); returns that path and the
/// take id it will have.
pub fn move_destination(data_root: &str, area: &str, take_name: Option<String>) -> (r: Result<(String, String), String>)
    ensures
        match take_name {
            None => r matches Err(f) && f@ == "Recording take name could not be read."@,
            Some(name) => r matches Ok((destination, id)) && id@ == "recording:"@ + strip_prefix_spec(destination@, "\\\\?\\"@)
                && (no_question_mark(data_root@) && single_name_text(area@) && no_question_mark(area@) && single_name_text(name@) ==> {
                    &&& data_root@.is_prefix_of(destination@)
                    &&& destination@.subrange(destination@.len() - name@.len(), destination@.len() as int) == name@
                    &&& moved_into(data_root@, area@, name@, destination@)
                }),
        },
{
    let name = match take_name {
        Some(n) => n,
        None => return Err(to_string("Recording take name could not be read.")),
    };
    proof {
        reveal_strlit("recordings");
        assert(plain_segment("recordings"@));
        assert(no_question_mark("recordings"@));
    }
    let recordings = join_path(data_root, "recordings");
    proof {
        if no_question_mark(data_root@) {
            lemma_join_keeps_no_question_mark(data_root@, "recordings"@, recordings@);
        }
    }
    let folder = join_path(recordings.as_str(), area);
    proof {
        if no_question_mark(data_root@) && single_name_text(area@) && no_question_mark(area@) {
            lemma_join_keeps_no_question_mark(recordings@, area@, folder@);
        }
    }
    let destination = join_path(folder.as_str(), name.as_str());
    proof {
        if no_question_mark(data_root@) && single_name_text(area@) && no_question_mark(area@) && single_name_text(name@) {
            assert forall|i: int| 0 <= i < data_root@.len() implies data_root@[i] == destination@[i] by {
                assert(recordings@[i] == folder@[i]);
                assert(folder@[i] == destination@[i]);
            }
            assert(joined(data_root@, "recordings"@, recordings@) && joined(recordings@, area@, folder@));
            assert(moved_into(data_root@, area@, name@, destination@));
        }
    }
    let id = take_id_for(destination.as_str());
    Ok((destination, id))
}

/// Where an archived Inbox take goes: `<data_root>/recordings/archive/<name>`
/// (see `move_destination`).
pub fn archive(data_root: &str, take_name: Option<String>) -> (r: Result<(String, String), String>)
    ensures
        match take_name {
            None => r matches Err(f) && f@ == "Recording take name could not be read."@,
            Some(name) => r matches Ok((destination, id)) && id@ == "recording:"@ + strip_prefix_spec(destination@, "\\\\?\\"@)
                && (no_question_mark(data_root@) && single_name_text(name@) ==> {
                    &&& data_root@.is_prefix_of(destination@)
                    &&& destination@.subrange(destination@.len() - name@.len(), destination@.len() as int) == name@
                    &&& moved_into(data_root@, "archive"@, name@, destination@)
                }),
        },
{
    proof {
        reveal_strlit("archive");
        assert("archive"@.len() == 7);
        assert(seq!['.'].len() == 1 && seq!['.', '.'].len() == 2);
        assert(single_name_text("archive"@));
        assert(no_question_mark("archive"@));
    }
    move_destination(data_root, "archive", take_name)
}

/// Where a promoted Inbox take goes: `<data_root>/recordings/library/<name>`
/// (see `move_destination`).
pub fn promote(data_root: &str, take_name: Option<String>) -> (r: Result<(String, String), String>)
    ensures
        match take_name {
            None => r matches Err(f) && f@ == "Recording take name could not be read."@,
            Some(name) => r matches Ok((destination, id)) && id@ == "recording:"@ + strip_prefix_spec(destination@, "\\\\?\\"@)
                && (no_question_mark(data_root@) && single_name_text(name@) ==> {
                    &&& data_root@.is_prefix_of(destination@)
                    &&& destination@.subrange(destination@.len() - name@.len(), destination@.len() as int) == name@
                    &&& moved_into(data_root@, "library"@, name@, destination@)
                }),
        },
{
    proof {
        reveal_strlit("library");
        assert("library"@.len() == 7);
        assert(seq!['.'].len() == 1 && seq!['.', '.'].len() == 2);
        assert(single_name_text("library"@));
        assert(no_question_mark("library"@));
    }
    move_destination(data_root, "library", take_name)
}

/// The files of a take (see `media_paths`) from how its declared raw and
/// processed files resolved and whether it holds `midi.json` (at
/// `midi_path`): a file that did not resolve is left out.
pub fn audio_paths(raw: Result<String, String>, processed: Result<String, String>, midi_present: bool, midi_path: String) -> (p: RecordingAudioPaths)
    ensures
        p.0 == match raw { Ok(x) => Some(x), Err(_) => None::<String> },
        p.1 == match processed { Ok(x) => Some(x), Err(_) => None::<String> },
        p.2 == if midi_present { Some(midi_path) } else { None::<String> },
{
    let r = match raw { Ok(x) => Some(x), Err(_) => None };
    let q = match processed { Ok(x) => Some(x), Err(_) => None };
    (r, q, if midi_present { Some(midi_path) } else { None })
}

/// The take directory named by a take id (`recording:` is optional).
pub fn take_directory(take_id: &str) -> (d: String)
    ensures
        d@ == strip_prefix_spec(take_id@, "recording:"@),
{
    strip_prefix_or_self(take_id, "recording:")
}

/// The resolved raw, processed and MIDI files of a take.
pub type RecordingAudioPaths = (Option<String>, Option<String>, Option<String>);

/// The files a take is previewed by: its primary audio file (see
/// `primary_media`) and its MIDI file, once the take's files are resolved.
pub fn media_paths(paths: Result<RecordingAudioPaths, String>) -> (r: Result<(Option<String>, Option<String>), String>)
    ensures
        match paths {
            Ok((raw, processed, midi)) => r == Ok::<(Option<String>, Option<String>), String>((
                match processed { Some(x) => Some(x), None => raw }, midi)),
            Err(e) => r == Err::<(Option<String>, Option<String>), String>(e),
        },
{
    match paths {
        Ok((raw, processed, midi)) => Ok((primary_media(raw, processed), midi)),
        Err(e) => Err(e),
    }
}

/// The file a take is previewed and compared by: the processed file when
/// present, otherwise the raw one.
pub fn primary_media(raw: Option<String>, processed: Option<String>) -> (p: Option<String>)
    ensures
        p == match processed { Some(x) => Some(x), None => raw },
{
    match processed {
        Some(x) => Some(x),
        None => raw,
    }
}

/// Validates the new name of a renamed take: trimmed, not empty, not `.` or
/// `..`, and a single folder name.
pub fn validate_take_name(new_name: &str) -> (r: Result<String, String>)
    ensures
        match r {
            Ok(n) => n@ == trim_spec(new_name@) && n@.len() > 0 && n@ != "."@ && n@ != ".."@,
            Err(e) => e@ == "New take name must be a single folder name without separators."@,
        },
        trim_spec(new_name@).len() == 0 || trim_spec(new_name@) == "."@ || trim_spec(new_name@) == ".."@ ==> r is Err,
        single_name_text(trim_spec(new_name@)) ==> (r matches Ok(n) && n@ == trim_spec(new_name@)),
        two_name_text(trim_spec(new_name@)) ==> r is Err,
{
    proof {
        reveal_strlit(".");
        reveal_strlit("..");
        assert("."@ == seq!['.']);
        assert(".."@ == seq!['.', '.']);
    }
    let t = trim_chars(new_name);
    let name = crate::text::string_from_chars(&t);
    if t.len() == 0 || str_eq(name.as_str(), ".") || str_eq(name.as_str(), "..") || path_components(name.as_str()).len() != 1 {
        return Err(to_string("New take name must be a single folder name without separators."));
    }
    Ok(name)
}

/// A take as the Inbox lists it: what its manifest says, checked against
/// its files and the canonical assets.
pub struct RecordingAsset<P> {
    pub id: String,
    pub name: String,
    pub path: String,
    pub state: String,
    pub error: Option<String>,
    pub started_at: Option<String>,
    pub updated_at: Option<String>,
    pub raw_file: Option<String>,
    pub processed_file: Option<String>,
    pub raw_path: Option<String>,
    pub processed_path: Option<String>,
    pub raw_asset_id: Option<AssetId>,
    pub processed_asset_id: Option<AssetId>,
    pub midi_asset_id: Option<AssetId>,
    pub capture: Option<RecordingCapture<P>>,
    pub midi_file: Option<String>,
    pub sample_rate: Option<u32>,
    pub samples_written: u64,
    pub dropped_blocks: u64,
    pub missing_samples: u64,
    pub dropout_start_sample: Option<u64>,
    pub dropout_end_sample: Option<u64>,
    pub recovery_status: String,
}

/// What was found on disk and in the asset store for one take.
pub struct TakeFiles {
    /// How the declared raw file resolved (its path, or why not).
    pub raw: Result<String, String>,
    /// How the declared processed file resolved.
    pub processed: Result<String, String>,
    /// Content locations of the capture's raw, processed and MIDI assets,
    /// where a record exists.
    pub raw_location: Option<String>,
    pub processed_location: Option<String>,
    pub midi_location: Option<String>,
    /// Whether the take holds a `midi.json`.
    pub midi_present: bool,
}

/// An empty manifest, used where the manifest could not be read.
pub open spec fn empty_manifest<P>() -> RecordingManifest<P> {
    RecordingManifest {
        state: None,
        started_at: None,
        updated_at: None,
        raw_file: None,
        processed_file: None,
        sample_rate: None,
        samples_written: None,
        dropped_blocks: None,
        missing_samples: None,
        dropout_start_sample: None,
        dropout_end_sample: None,
        recovery_status: None,
        capture: None,
    }
}

/// Whether the manifest holds a completed capture, whose assets are the
/// take's canonical products.
pub open spec fn canonical_capture<P>(m: RecordingManifest<P>) -> bool {
    m.capture is Some && m.capture->0.status == RecordingCaptureStatus::Completed
}

/// Why a take is invalid, if it is: its manifest could not be read; else
/// its completed capture's assets are not all on record; else its manifest
/// does not validate.
pub open spec fn entry_error<P>(manifest: Result<RecordingManifest<P>, String>, files: TakeFiles) -> Option<Seq<char>> {
    match manifest {
        Err(e) => Some(e@),
        Ok(m) => {
            let asset_error = if canonical_capture(m) {
                let c = m.capture->0;
                completed_assets_error(id_view(c.raw_audio_asset_id), id_view(c.processed_audio_asset_id), id_view(c.midi_asset_id),
                    opt_view(files.raw_location), opt_view(files.processed_location), opt_view(files.midi_location))
            } else {
                None
            };
            match asset_error {
                Some(e) => Some(e),
                None => match validate_manifest_spec(m, res_view(files.raw), res_view(files.processed)) {
                    Err(e) => Some(e),
                    Ok(_) => None,
                },
            }
        },
    }
}

pub open spec fn non_empty(s: Seq<char>) -> Option<Seq<char>> {
    if s.len() == 0 { None } else { Some(s) }
}

/// The raw and processed paths shown for a take: the canonical assets'
/// locations for a valid completed capture, else the resolved files of a
/// manifest that validated.
pub open spec fn entry_paths<P>(manifest: Result<RecordingManifest<P>, String>, files: TakeFiles) -> (Option<Seq<char>>, Option<Seq<char>>) {
    match manifest {
        Err(_) => (None, None),
        Ok(m) => if canonical_capture(m) && entry_error(manifest, files) is None {
            (opt_view(files.raw_location), opt_view(files.processed_location))
        } else {
            match validate_manifest_spec(m, res_view(files.raw), res_view(files.processed)) {
                Ok((r, p)) => (non_empty(r), non_empty(p)),
                Err(_) => (None, None),
            }
        },
    }
}

/// The state shown for a take.
pub open spec fn entry_state<P>(manifest: Result<RecordingManifest<P>, String>, files: TakeFiles) -> Seq<char> {
    if entry_error(manifest, files) is Some {
        "invalid"@
    } else {
        current_state_spec(manifest->Ok_0)
    }
}

/// Whether a take matches a search: an empty query matches everything,
/// otherwise the lower-cased `name state path` must contain it.
pub open spec fn matches_query(name: Seq<char>, state: Seq<char>, path: Seq<char>, query: Seq<char>) -> bool {
    query.len() == 0 || contains_seq(lowercase(name + " "@ + state + " "@ + path), query)
}

/// Lists one take of the Inbox at `path`, named `name` (the directory name
/// when it is readable text), when it matches `query` (already trimmed and
/// lower-cased); see `entry_error`, `entry_state` and `entry_paths`.
#[verifier::rlimit(40)]
pub fn index_entry<P>(
    path: &str,
    name: Option<String>,
    manifest: Result<RecordingManifest<P>, String>,
    files: TakeFiles,
    query: &str,
) -> (r: Option<RecordingAsset<P>>)
    ensures
        ({
            let m = match manifest { Ok(m) => m, Err(_) => empty_manifest::<P>() };
            let shown_name = match name { Some(n) => n@, None => "Untitled Take"@ };
            let state = entry_state(manifest, files);
            let dropout = match m.capture { Some(c) => c.dropout_information, None => DropoutInformation::default_spec() };
            match r {
                None => !matches_query(shown_name, state, path@, query@),
                Some(a) => {
                    &&& matches_query(shown_name, state, path@, query@)
                    &&& a.id@ == "recording:"@ + path@
                    &&& a.name@ == shown_name
                    &&& a.path@ == path@
                    &&& a.state@ == state
                    &&& opt_view(a.error) == entry_error(manifest, files)
                    &&& a.started_at == m.started_at
                    &&& a.updated_at == m.updated_at
                    &&& a.raw_file == m.raw_file
                    &&& a.processed_file == m.processed_file
                    &&& (opt_view(a.raw_path), opt_view(a.processed_path)) == entry_paths(manifest, files)
                    &&& id_view(a.raw_asset_id) == match m.capture { Some(c) => id_view(c.raw_audio_asset_id), None => None }
                    &&& id_view(a.processed_asset_id) == match m.capture { Some(c) => id_view(c.processed_audio_asset_id), None => None }
                    &&& id_view(a.midi_asset_id) == match m.capture { Some(c) => id_view(c.midi_asset_id), None => None }
                    &&& a.capture == m.capture
                    &&& opt_view(a.midi_file) == if files.midi_present { Some("midi.json"@) } else { None }
                    &&& a.sample_rate == match m.capture { Some(c) => c.sample_rate, None => None }
                    &&& a.samples_written == dropout.samples_written
                    &&& a.dropped_blocks == dropout.dropped_blocks
                    &&& a.missing_samples == dropout.missing_samples
                    &&& a.dropout_start_sample == dropout.dropout_start_sample
                    &&& a.dropout_end_sample == dropout.dropout_end_sample
                    &&& a.recovery_status@ == recovery_label_spec(m, dropout.dropped_blocks)
                },
            }
        }),
{
    let shown_name = match name {
        Some(n) => n,
        None => to_string("Untitled Take"),
    };
    let ghost manifest0 = manifest;
    let ghost files0 = files;
    let TakeFiles { raw, processed, raw_location, processed_location, midi_location, midi_present } = files;
    let (m, manifest_error) = match manifest {
        Ok(m) => (m, None),
        Err(e) => (RecordingManifest {
            state: None,
            started_at: None,
            updated_at: None,
            raw_file: None,
            processed_file: None,
            sample_rate: None,
            samples_written: None,
            dropped_blocks: None,
            missing_samples: None,
            dropout_start_sample: None,
            dropout_end_sample: None,
            recovery_status: None,
            capture: None,
        }, Some(e)),
    };
    let (raw_asset_id, processed_asset_id, midi_asset_id) = canonical_asset_ids(&m);
    let is_canonical = match &m.capture {
        Some(c) => c.status == RecordingCaptureStatus::Completed,
        None => false,
    };
    let mut error: Option<String> = None;
    let mut validated: Option<(String, String)> = None;
    if manifest_error.is_some() {
        error = manifest_error;
    } else {
        match validate_manifest(&m, raw, processed) {
            Ok(paths) => validated = Some(paths),
            Err(e) => error = Some(e),
        }
        if is_canonical {
            let checked = validate_completed_capture_assets(raw_asset_id.as_ref(), processed_asset_id.as_ref(), midi_asset_id.as_ref(),
                match &raw_location { Some(l) => Some(l.as_str()), None => None },
                match &processed_location { Some(l) => Some(l.as_str()), None => None },
                match &midi_location { Some(l) => Some(l.as_str()), None => None });
            match checked {
                Err(e) => error = Some(e),
                Ok(()) => {},
            }
        }
    }
    assert(opt_view(error) == entry_error(manifest0, files0));
    let state = if error.is_some() { to_string("invalid") } else { current_state(&m) };
    let mut search = to_string(shown_name.as_str());
    append_str(&mut search, " ");
    append_str(&mut search, state.as_str());
    append_str(&mut search, " ");
    append_str(&mut search, path);
    let lowered = to_lowercase(search.as_str());
    if !query.is_empty() && !str_contains(lowered.as_str(), query) {
        return None;
    }
    let (raw_path, processed_path) = if is_canonical && error.is_none() {
        (raw_location, processed_location)
    } else {
        match validated {
            Some((r, p)) => (
                if r.as_str().is_empty() { None } else { Some(r) },
                if p.as_str().is_empty() { None } else { Some(p) },
            ),
            None => (None, None),
        }
    };
    let dropout = current_dropout_information(&m);
    let sample_rate = current_sample_rate(&m);
    let recovery_status = recovery_label(&m, dropout.dropped_blocks);
    Some(RecordingAsset {
        id: concat2("recording:", path),
        name: shown_name,
        path: to_string(path),
        state,
        error,
        started_at: m.started_at,
        updated_at: m.updated_at,
        raw_file: m.raw_file,
        processed_file: m.processed_file,
        raw_path,
        processed_path,
        raw_asset_id,
        processed_asset_id,
        midi_asset_id,
        capture: m.capture,
        midi_file: if midi_present { Some(to_string("midi.json")) } else { None },
        sample_rate,
        samples_written: dropout.samples_written,
        dropped_blocks: dropout.dropped_blocks,
        missing_samples: dropout.missing_samples,
        dropout_start_sample: dropout.dropout_start_sample,
        dropout_end_sample: dropout.dropout_end_sample,
        recovery_status,
    })
}

/// The order of `Option<String>`: nothing first, then texts in order.
pub open spec fn key_le(a: Option<Seq<char>>, b: Option<Seq<char>>) -> bool {
    match (a, b) {
        (None, _) => true,
        (Some(_), None) => false,
        (Some(x), Some(y)) => text_le(x, y),
    }
}

proof fn lemma_key_le_total(a: Option<Seq<char>>, b: Option<Seq<char>>)
    ensures
        key_le(a, b) || key_le(b, a),
{
    if a is Some && b is Some {
        lemma_text_le_total(a->0, b->0);
    }
}

proof fn lemma_key_le_transitive(a: Option<Seq<char>>, b: Option<Seq<char>>, c: Option<Seq<char>>)
    requires
        key_le(a, b),
        key_le(b, c),
    ensures
        key_le(a, c),
{
    if a is Some && b is Some && c is Some {
        lemma_text_le_transitive(a->0, b->0, c->0);
    }
}

pub open spec fn updated_key<P>(a: RecordingAsset<P>) -> Option<Seq<char>> {
    opt_view(a.updated_at)
}

/// Most recently updated first.
pub open spec fn newest_first<P>(s: Seq<RecordingAsset<P>>) -> bool {
    forall|i: int, j: int| 0 <= i < j < s.len() ==> key_le(#[trigger] updated_key(s[j]), #[trigger] updated_key(s[i]))
}

fn key_le_exec(a: &Option<String>, b: &Option<String>) -> (r: bool)
    ensures
        r == key_le(opt_view(*a), opt_view(*b)),
{
    match (a, b) {
        (None, _) => true,
        (Some(_), None) => false,
        (Some(x), Some(y)) => text_le_exec(x.as_str(), y.as_str()),
    }
}

/// `x` placed in `s` after every take updated no earlier than it.
pub open spec fn insert_newest<P>(s: Seq<RecordingAsset<P>>, x: RecordingAsset<P>) -> Seq<RecordingAsset<P>>
    decreases s.len(),
{
    if s.len() == 0 {
        seq![x]
    } else if !key_le(updated_key(x), updated_key(s[0])) {
        seq![x] + s
    } else {
        seq![s[0]] + insert_newest(s.drop_first(), x)
    }
}

/// The takes most recently updated first, takes updated at the same time in
/// the order given (a stable sort).
pub open spec fn newest_first_order<P>(s: Seq<RecordingAsset<P>>) -> Seq<RecordingAsset<P>>
    decreases s.len(),
{
    if s.len() == 0 { seq![] } else { insert_newest(newest_first_order(s.drop_last()), s.last()) }
}

proof fn lemma_insert_newest<P>(s: Seq<RecordingAsset<P>>, x: RecordingAsset<P>, p: int)
    requires
        0 <= p <= s.len(),
        forall|k: int| 0 <= k < p ==> key_le(updated_key(x), #[trigger] updated_key(s[k])),
        p < s.len() ==> !key_le(updated_key(x), updated_key(s[p])),
    ensures
        insert_newest(s, x) == s.insert(p, x),
    decreases s.len(),
{
    if s.len() == 0 {
        assert(s.insert(p, x) =~= seq![x]);
    } else if p == 0 {
        assert(s.insert(0, x) =~= seq![x] + s);
    } else {
        assert forall|k: int| 0 <= k < p - 1 implies key_le(updated_key(x), #[trigger] updated_key(s.drop_first()[k])) by {
            assert(s.drop_first()[k] == s[k + 1]);
        }
        lemma_insert_newest(s.drop_first(), x, p - 1);
        assert(s.insert(p, x) =~= seq![s[0]] + s.drop_first().insert(p - 1, x));
    }
}

/// Orders takes most recently updated first; takes updated at the same
/// time keep their order.
pub fn sort_newest_first<P>(assets: Vec<RecordingAsset<P>>) -> (sorted: Vec<RecordingAsset<P>>)
    ensures
        sorted@ == newest_first_order(assets@),
        sorted@.to_multiset() == assets@.to_multiset(),
        newest_first(sorted@),
{
    broadcast use vstd::seq_lib::group_to_multiset_ensures, vstd::multiset::group_multiset_axioms;
    let ghost input = assets@;
    let mut rest = assets;
    let mut out: Vec<RecordingAsset<P>> = Vec::new();
    let ghost mut n: int = 0;
    assert(out@.to_multiset() =~= vstd::multiset::Multiset::<RecordingAsset<P>>::empty());
    while rest.len() > 0
        invariant
            0 <= n <= input.len(),
            rest@ == input.skip(n),
            out@ == newest_first_order(input.take(n)),
            out@.to_multiset().add(rest@.to_multiset()) == input.to_multiset(),
            newest_first(out@),
        decreases rest.len(),
    {
        let ghost rest0 = rest@;
        let x = rest.remove(0);
        assert(x == input[n]);
        assert(input.take(n + 1).drop_last() =~= input.take(n));
        proof {
            vstd::seq_lib::to_multiset_remove(rest0, 0);
        }
        let mut p: usize = 0;
        while p < out.len() && key_le_exec(&x.updated_at, &out[p].updated_at)
            invariant
                p <= out.len(),
                forall|k: int| 0 <= k < p ==> key_le(updated_key(x), #[trigger] updated_key(out@[k])),
            decreases out.len() - p,
        {
            p += 1;
        }
        let ghost out0 = out@;
        proof {
            if p < out0.len() {
                lemma_key_le_total(updated_key(x), updated_key(out0[p as int]));
            }
            lemma_insert_newest(out0, x, p as int);
        }
        out.insert(p, x);
        proof {
            n = n + 1;
            vstd::seq_lib::to_multiset_insert(out0, p as int, x);
            assert(rest0[0] == x);
            assert(rest0.contains(x));
            vstd::seq_lib::to_multiset_contains(rest0, x);
            assert(rest0.to_multiset().count(x) > 0);
            assert(out@.to_multiset().add(rest@.to_multiset()) =~= out0.to_multiset().add(rest0.to_multiset()));
            let ns = out@;
            assert forall|i: int, j: int| 0 <= i < j < ns.len() implies key_le(#[trigger] updated_key(ns[j]), #[trigger] updated_key(ns[i])) by {
                if j < p {
                    assert(ns[i] == out0[i] && ns[j] == out0[j]);
                } else if j == p {
                    assert(ns[i] == out0[i]);
                } else if i < p {
                    assert(ns[i] == out0[i] && ns[j] == out0[j - 1]);
                    if i < j - 1 {
                        assert(key_le(updated_key(out0[j - 1]), updated_key(out0[i])));
                    }
                } else if i == p {
                    assert(ns[j] == out0[j - 1]);
                    if j - 1 > p {
                        assert(key_le(updated_key(out0[j - 1]), updated_key(out0[p as int])));
                        lemma_key_le_transitive(updated_key(out0[j - 1]), updated_key(out0[p as int]), updated_key(x));
                    }
                } else {
                    assert(ns[i] == out0[i - 1] && ns[j] == out0[j - 1]);
                }
            }
        }
    }
    assert(rest@.to_multiset() =~= vstd::multiset::Multiset::<RecordingAsset<P>>::empty());
    assert(input.take(n) =~= input);
    out
}

} // verus!
