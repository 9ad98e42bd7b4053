use riffra::recording::{RecordingCapture, RecordingCaptureStatus};
use riffra::recording_index::{
    index_entry, media_paths, recover_interrupted_manifest, sort_newest_first, validate_manifest, RecordingAsset, RecordingManifest,
    TakeFiles,
};

fn manifest(state: Option<&str>) -> RecordingManifest<()> {
    RecordingManifest {
        state: state.map(str::to_string),
        started_at: None,
        updated_at: None,
        raw_file: Some("raw.wav".to_string()),
        processed_file: Some("processed.wav".to_string()),
        sample_rate: Some(48_000),
        samples_written: None,
        dropped_blocks: None,
        missing_samples: None,
        dropout_start_sample: None,
        dropout_end_sample: None,
        recovery_status: None,
        capture: None,
    }
}

fn recording() -> RecordingManifest<()> {
    let mut m = manifest(Some("recording"));
    m.capture = Some(RecordingCapture::start("capture:2".to_string(), "session-1".to_string(), 10));
    m
}

fn completed_capture(samples: u64, sample_rate: Option<u32>) -> RecordingCapture<()> {
    let mut capture = RecordingCapture::start("capture:1".to_string(), "session-1".to_string(), 10);
    capture.status = RecordingCaptureStatus::Completed;
    capture.sample_rate = sample_rate;
    capture.dropout_information.samples_written = samples;
    capture
}

fn files(raw: Result<&str, &str>, processed: Result<&str, &str>) -> TakeFiles {
    TakeFiles {
        raw: raw.map(str::to_string).map_err(str::to_string),
        processed: processed.map(str::to_string).map_err(str::to_string),
        raw_location: None,
        processed_location: None,
        midi_location: None,
        midi_present: false,
    }
}

#[test]
fn rejects_completed_manifest_without_recorded_samples() {
    let mut m = manifest(Some("completed"));
    m.capture = Some(completed_capture(0, Some(48_000)));
    assert_eq!(
        validate_manifest(&m, Ok("raw".to_string()), Ok("processed".to_string())).unwrap_err(),
        "Completed recording contains no audio samples."
    );
    m.capture = Some(completed_capture(10, None));
    assert_eq!(
        validate_manifest(&m, Ok("raw".to_string()), Ok("processed".to_string())).unwrap_err(),
        "Completed recording has no valid sample rate."
    );
}

#[test]
fn completed_captures_are_valid_without_their_files() {
    let mut m = manifest(Some("completed"));
    m.capture = Some(completed_capture(10, Some(48_000)));
    assert_eq!(
        validate_manifest(&m, Err("Raw file is missing.".to_string()), Err("gone".to_string())),
        Ok((String::new(), String::new()))
    );
}

#[test]
fn recording_takes_need_both_files_and_known_states() {
    let m = recording();
    assert_eq!(
        validate_manifest(&m, Err("Raw file is missing.".to_string()), Ok("p".to_string())).unwrap_err(),
        "Raw file is missing."
    );
    assert_eq!(
        validate_manifest(&m, Ok("r".to_string()), Ok("p".to_string())),
        Ok(("r".to_string(), "p".to_string()))
    );
    let without_capture = manifest(Some("recording"));
    assert_eq!(
        validate_manifest(&without_capture, Ok("r".to_string()), Ok("p".to_string())).unwrap_err(),
        "Recording state 'invalid' is not supported."
    );
}

#[test]
fn interrupted_takes_become_recoverable() {
    let mut m = manifest(Some("recording"));
    assert!(recover_interrupted_manifest(&mut m, Some(4_800), "C:/Inbox/take-1", 99));
    assert_eq!(m.state.as_deref(), Some("recoverable"));
    assert_eq!(m.samples_written, Some(4_800));
    assert_eq!(m.recovery_status.as_deref(), Some("partial"));
    let capture = m.capture.as_ref().unwrap();
    assert_eq!(capture.capture_id, "capture:C:/Inbox/take-1");
    assert_eq!(capture.session_id, "unknown");
    assert_eq!(capture.sample_rate, Some(48_000));
    assert_eq!(capture.dropout_information.samples_written, 4_800);

    let mut finished = manifest(Some("completed"));
    assert!(!recover_interrupted_manifest(&mut finished, Some(10), "C:/Inbox/take-2", 99));
    assert_eq!(finished.state.as_deref(), Some("completed"));
}

#[test]
fn repository_exposes_invalid_manifest_instead_of_using_an_empty_default() {
    let entry = index_entry::<()>(
        "C:/Inbox/take-3",
        Some("take-3".to_string()),
        Err("manifest could not be parsed".to_string()),
        files(Ok("r"), Ok("p")),
        "",
    )
    .unwrap();
    assert_eq!(entry.id, "recording:C:/Inbox/take-3");
    assert_eq!(entry.state, "invalid");
    assert_eq!(entry.error.as_deref(), Some("manifest could not be parsed"));
    assert!(entry.raw_path.is_none());
    assert!(index_entry::<()>("C:/Inbox/take-3", None, Err("bad".to_string()), files(Ok("r"), Ok("p")), "guitar").is_none());
}

#[test]
fn listed_takes_show_their_resolved_files_and_match_queries() {
    let mut m = recording();
    m.updated_at = Some("2024-05-01".to_string());
    let entry = index_entry(
        "C:/Inbox/take-4",
        Some("Guitar Take".to_string()),
        Ok(m),
        files(Ok("C:/Inbox/take-4/raw.wav"), Ok("C:/Inbox/take-4/processed.wav")),
        "guitar take",
    )
    .unwrap();
    assert_eq!(entry.state, "recording");
    assert!(entry.error.is_none());
    assert_eq!(entry.raw_path.as_deref(), Some("C:/Inbox/take-4/raw.wav"));
    assert_eq!(entry.recovery_status, "recording");
}

fn listed(name: &str, updated_at: Option<&str>) -> RecordingAsset<()> {
    index_entry(
        &format!("C:/Inbox/{name}"),
        Some(name.to_string()),
        Ok(RecordingManifest { updated_at: updated_at.map(str::to_string), ..recording() }),
        files(Ok("r"), Ok("p")),
        "",
    )
    .unwrap()
}

#[test]
fn inbox_lists_newest_takes_first() {
    let sorted = sort_newest_first(vec![
        listed("a", Some("2024-01-01")),
        listed("b", None),
        listed("c", Some("2024-03-01")),
        listed("d", Some("2024-02-01")),
    ]);
    let names: Vec<&str> = sorted.iter().map(|asset| asset.name.as_str()).collect();
    assert_eq!(names, vec!["c", "d", "a", "b"]);
}

#[test]
fn a_take_is_previewed_by_its_processed_file_first() {
    let raw = Some("C:/take/raw.wav".to_string());
    let processed = Some("C:/take/processed.wav".to_string());
    let midi = Some("C:/take/midi.json".to_string());
    assert_eq!(
        media_paths(Ok((raw.clone(), processed.clone(), midi.clone()))),
        Ok((processed, midi.clone()))
    );
    assert_eq!(media_paths(Ok((raw.clone(), None, None))), Ok((raw, None)));
    assert_eq!(media_paths(Err("The take manifest is missing.".to_string())), Err("The take manifest is missing.".to_string()));
}
