use riffra::recording_start::{
    armed_track_ids, capture_save_failure, capture_start_tick, check_recording_start, input_channel_name, ArmableTrack,
};
use riffra::take_placement::TrackKind;

fn track(id: &str, kind: TrackKind, armed: bool) -> ArmableTrack {
    ArmableTrack { id: id.to_string(), kind, armed }
}

#[test]
fn safe_mode_blocks_start_recording() {
    let tracks = vec![track("guitar", TrackKind::Audio, true)];
    assert_eq!(
        check_recording_start(true, &tracks, None, &vec![]).unwrap_err(),
        "Safe Mode blocks new hardware recordings; existing Inbox assets remain available for export."
    );
}

#[test]
fn recording_needs_an_armed_track_and_a_known_session() {
    let idle = vec![track("guitar", TrackKind::Audio, false)];
    assert_eq!(check_recording_start(false, &idle, None, &vec![]).unwrap_err(), "No tracks are armed for recording.");
    let tracks = vec![track("guitar", TrackKind::Audio, true), track("keys", TrackKind::Instrument, false)];
    assert_eq!(
        check_recording_start(false, &tracks, Some("rs-9"), &vec!["rs-1".to_string()]).unwrap_err(),
        "Recording Session is not registered: rs-9"
    );
    assert_eq!(check_recording_start(false, &tracks, Some("rs-1"), &vec!["rs-1".to_string()]), Ok(false));
}

#[test]
fn only_armed_instrument_tracks_record_midi_only() {
    let tracks = vec![track("keys", TrackKind::Instrument, true), track("guitar", TrackKind::Audio, false)];
    assert_eq!(check_recording_start(false, &tracks, None, &vec![]), Ok(true));
    assert_eq!(armed_track_ids(&tracks), vec!["keys".to_string()]);
}

#[test]
fn capture_context_reads_channel_names_and_latency() {
    let channels = vec![(0, "In 1".to_string()), (1, "In 2".to_string()), (1, "Duplicate".to_string())];
    assert_eq!(input_channel_name(Some(1), &channels).as_deref(), Some("In 2"));
    assert_eq!(input_channel_name(Some(5), &channels), None);
    assert_eq!(input_channel_name(None, &channels), None);
    assert_eq!(capture_start_tick(Some(1_000), 120), 880);
    assert_eq!(capture_start_tick(Some(50), 120), 0);
    assert_eq!(capture_start_tick(None, 0), 0);
}

#[test]
fn failed_capture_metadata_reports_the_rollback() {
    assert_eq!(
        capture_save_failure("disk full", Ok(())),
        "Recording capture metadata could not be saved; recording was stopped again: disk full"
    );
    assert_eq!(
        capture_save_failure("disk full", Err("sidecar gone".to_string())),
        "Recording capture metadata could not be saved (disk full), and the active recording could not be stopped (sidecar gone)."
    );
}
