use riffra::asset::AssetId;
use riffra::take_placement::{
    place_recording_on_timeline, recording_session_id, AudioTakeVariant, RecordedTimeline, RecordingOutputs,
    RecordingSessionRecord, TakeSource, TrackKind, TrackRef,
};
use riffra::timeline::{MidiClip, TimelineLoopRange, TimelineTick};

const RAW: &str = "asset:01890a5d-ac96-7000-8000-000000000001";
const PROCESSED: &str = "asset:01890a5d-ac96-7000-8000-000000000002";
const MIDI: &str = "asset:01890a5d-ac96-7000-8000-000000000003";

fn asset(id: &str) -> AssetId {
    AssetId::from_normalized(id.to_string()).unwrap()
}

fn tracks() -> Vec<TrackRef> {
    vec![
        TrackRef { id: "guitar".to_string(), kind: TrackKind::Audio },
        TrackRef { id: "keys".to_string(), kind: TrackKind::Instrument },
    ]
}

fn recorded_midi() -> MidiClip {
    MidiClip {
        id: String::new(),
        name: "Recorded MIDI".to_string(),
        track_id: String::new(),
        asset_id: None,
        start_tick: TimelineTick(0),
        duration_ticks: 2_400,
        notes: vec![],
        events: vec![],
        muted: false,
        loop_enabled: false,
    }
}

fn source(loop_recording: bool) -> TakeSource {
    TakeSource {
        recording_id: "rs".to_string(),
        capture_key: "cap".to_string(),
        armed_track_ids: vec!["guitar".to_string(), "keys".to_string(), "gone".to_string()],
        start_tick: TimelineTick(0),
        loop_recording,
        outputs: RecordingOutputs { raw: Some(asset(RAW)), processed: Some(asset(PROCESSED)), midi: Some(asset(MIDI)) },
        midi_source: Some(recorded_midi()),
        audio_source: Some((48_000, 100)),
        audio_duration_ticks: Some(2_400),
    }
}

fn empty_timeline() -> RecordedTimeline {
    RecordedTimeline { midi_clips: vec![], takes: vec![], recording_sessions: vec![], revision: 4 }
}

fn loop_range() -> TimelineLoopRange {
    TimelineLoopRange { enabled: true, start_tick: TimelineTick(0), end_tick: TimelineTick(960) }
}

#[test]
fn loop_recording_places_one_take_per_pass_and_only_the_last_is_active() {
    let mut timeline = empty_timeline();
    let plans = place_recording_on_timeline(&mut timeline, &tracks(), loop_range(), &source(true));

    assert_eq!(plans.len(), 3);
    let ranges: Vec<(u64, u64, bool)> = plans.iter().map(|p| (p.source_start, p.source_end, p.muted)).collect();
    assert_eq!(ranges, vec![(0, 40, true), (40, 80, true), (80, 100, false)]);
    assert_eq!(plans[0].clip_id, "clip:take:rs:cap:guitar:0");
    assert_eq!(plans[0].asset_id.as_str(), PROCESSED);
    assert_eq!(plans[2].start_tick, TimelineTick(0));
    assert_eq!(plans[1].start_tick, TimelineTick(0));
    assert_eq!(plans[0].sample_rate, 48_000);

    assert_eq!(timeline.takes.len(), 6);
    assert_eq!(timeline.takes[0].id, "take:rs:cap:guitar:0");
    assert_eq!(timeline.takes[5].id, "take:rs:cap:keys:2");
    let active: Vec<bool> = timeline.takes.iter().map(|t| t.active).collect();
    assert_eq!(active, vec![false, false, true, false, false, true]);
    assert!(matches!(timeline.takes[0].active_variant, AudioTakeVariant::Processed));
    assert_eq!(timeline.takes[3].clip_id.as_deref(), Some("midi-clip:take:rs:cap:keys:0"));

    assert_eq!(timeline.midi_clips.len(), 3);
    assert!(timeline.midi_clips[0].muted);
    assert!(!timeline.midi_clips[2].muted);
    assert_eq!(timeline.midi_clips[2].track_id, "keys");

    assert_eq!(timeline.recording_sessions.len(), 1);
    let session = &timeline.recording_sessions[0];
    assert_eq!(session.id, "rs");
    assert_eq!(session.start_tick, TimelineTick(0));
    assert_eq!(session.end_tick, TimelineTick(960));
    assert!(session.loop_recording);
    assert_eq!(session.take_ids.len(), 6);
    assert_eq!(timeline.revision, 5);
}

#[test]
fn another_take_joins_its_recording_session() {
    let mut timeline = empty_timeline();
    timeline.recording_sessions.push(RecordingSessionRecord {
        id: "rs".to_string(),
        start_tick: TimelineTick(100),
        end_tick: TimelineTick(200),
        track_ids: vec!["guitar".to_string()],
        loop_recording: false,
        take_ids: vec!["take:earlier".to_string()],
    });
    let mut single = source(false);
    single.armed_track_ids = vec!["guitar".to_string(), "keys".to_string()];
    let plans = place_recording_on_timeline(&mut timeline, &tracks(), loop_range(), &single);
    assert_eq!(plans.len(), 1);
    assert_eq!((plans[0].source_start, plans[0].source_end, plans[0].muted), (0, 100, false));
    let session = &timeline.recording_sessions[0];
    assert_eq!(session.start_tick, TimelineTick(0));
    assert_eq!(session.end_tick, TimelineTick(2_400));
    assert_eq!(session.track_ids, vec!["guitar".to_string(), "keys".to_string()]);
    assert_eq!(session.take_ids.len(), 3);
    assert_eq!(session.take_ids[0], "take:earlier");
}

#[test]
fn nothing_is_placed_without_known_armed_tracks() {
    let mut timeline = empty_timeline();
    let mut orphan = source(false);
    orphan.armed_track_ids = vec!["gone".to_string()];
    let plans = place_recording_on_timeline(&mut timeline, &tracks(), loop_range(), &orphan);
    assert!(plans.is_empty());
    assert!(timeline.takes.is_empty());
    assert!(timeline.recording_sessions.is_empty());
    assert_eq!(timeline.revision, 4);
}

#[test]
fn recordings_without_a_session_get_one_named_after_their_directory() {
    assert_eq!(recording_session_id(Some("rs-1".to_string()), "C:\\Inbox\\take-1"), "rs-1");
    assert_eq!(recording_session_id(None, "C:\\Inbox\\take-1"), "recording-session:C:\\Inbox\\take-1");
}
