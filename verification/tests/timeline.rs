use riffra::timeline::{
    assemble_recorded_midi, recording_segments, slice_recorded_midi, MidiClip, MidiEvent, MidiEventKind, MidiNote,
    RecordedMidiEvent, RecordingSegment, TimelineLoopRange, TimelineTick,
};

#[test]
fn loop_recording_is_partitioned_into_active_and_preserved_takes() {
    let segments = recording_segments(
        TimelineTick(0),
        2_400,
        true,
        TimelineLoopRange { enabled: true, start_tick: TimelineTick(0), end_tick: TimelineTick(960) },
    );
    assert_eq!(segments.len(), 3);
    assert_eq!(segments[0].duration_ticks, 960);
    assert_eq!(segments[1].relative_start_tick, 960);
    assert_eq!(segments[2].duration_ticks, 480);
    assert_eq!(segments[2].relative_end_tick, 2_400);
}

#[test]
fn a_recording_outside_a_loop_is_one_pass_of_at_least_a_tick() {
    let range = TimelineLoopRange { enabled: false, start_tick: TimelineTick(0), end_tick: TimelineTick(960) };
    let segments = recording_segments(TimelineTick(500), 0, true, range);
    assert_eq!(
        segments,
        vec![RecordingSegment { start_tick: TimelineTick(500), duration_ticks: 1, relative_start_tick: 0, relative_end_tick: 1 }]
    );
    let empty_loop = TimelineLoopRange { enabled: true, start_tick: TimelineTick(960), end_tick: TimelineTick(960) };
    assert_eq!(recording_segments(TimelineTick(0), 100, true, empty_loop).len(), 1);
}

#[test]
fn later_loop_passes_start_at_the_loop_start() {
    let range = TimelineLoopRange { enabled: true, start_tick: TimelineTick(480), end_tick: TimelineTick(1_440) };
    let segments = recording_segments(TimelineTick(700), 1_920, true, range);
    assert_eq!(segments.len(), 2);
    assert_eq!(segments[0].start_tick, TimelineTick(700));
    assert_eq!(segments[1].start_tick, TimelineTick(480));
    assert_eq!(segments[1].relative_start_tick, 960);
    assert_eq!(segments[1].relative_end_tick, 1_920);
}

#[test]
fn recorded_midi_segment_preserves_controller_events_and_truncates_notes() {
    let source = MidiClip {
        id: "source".into(),
        name: "MIDI".into(),
        track_id: "instrument".into(),
        asset_id: None,
        start_tick: TimelineTick(0),
        duration_ticks: 1_920,
        notes: vec![MidiNote {
            id: "note".into(),
            note: 60,
            start_tick: TimelineTick(900),
            duration_ticks: 200,
            velocity: 100,
            channel: 1,
        }],
        events: vec![MidiEvent {
            id: "cc".into(),
            kind: MidiEventKind::ControlChange,
            tick: TimelineTick(1_000),
            channel: 1,
            data1: 7,
            data2: 96,
        }],
        muted: false,
        loop_enabled: false,
    };
    let segment = RecordingSegment {
        start_tick: TimelineTick(960),
        duration_ticks: 960,
        relative_start_tick: 960,
        relative_end_tick: 1_920,
    };
    let sliced = slice_recorded_midi(&source, "instrument", segment, None, "clip:take:1".into());
    assert_eq!(sliced.notes[0].start_tick, TimelineTick(0));
    assert_eq!(sliced.notes[0].duration_ticks, 140);
    assert_eq!(sliced.events[0].tick, TimelineTick(40));
    assert_eq!(sliced.notes[0].id, "note:clip:take:1");
    assert_eq!(sliced.start_tick, TimelineTick(960));
}

fn event(tick: u64, status: u8, channel: u8, data1: u8, data2: u8) -> RecordedMidiEvent {
    RecordedMidiEvent { tick, status, channel, data1, data2 }
}

#[test]
fn recorded_midi_pairs_note_on_and_off_and_keeps_controllers() {
    let events = vec![
        event(0, 0x90, 1, 60, 100),
        event(10, 0xb0, 1, 7, 90),
        event(20, 0x80, 1, 60, 0),
        event(30, 0x90, 2, 62, 80),
        event(40, 0x90, 2, 62, 0),
        event(50, 0xd0, 17, 33, 44),
        event(60, 0xe0, 0, 1, 64),
        event(70, 0xf0, 1, 1, 1),
    ];
    let clip = assemble_recorded_midi(&events, "midi-clip:recorded:1".into(), "", TimelineTick(96));
    assert_eq!(clip.name, "Recorded MIDI");
    assert_eq!(clip.start_tick, TimelineTick(96));
    assert_eq!(clip.notes.len(), 2);
    assert_eq!(clip.notes[0].id, "note:recorded:2");
    assert_eq!(clip.notes[0].start_tick, TimelineTick(0));
    assert_eq!(clip.notes[0].duration_ticks, 20);
    assert_eq!(clip.notes[0].velocity, 100);
    assert_eq!(clip.notes[1].id, "note:recorded:4");
    assert_eq!(clip.notes[1].channel, 2);
    assert_eq!(clip.events.len(), 3);
    assert_eq!(clip.events[0].kind, MidiEventKind::ControlChange);
    assert_eq!(clip.events[0].id, "event:recorded:1");
    assert_eq!(clip.events[1].kind, MidiEventKind::ChannelPressure);
    assert_eq!(clip.events[1].channel, 16);
    assert_eq!(clip.events[1].data2, 0);
    assert_eq!(clip.events[2].kind, MidiEventKind::PitchBend);
    assert_eq!(clip.events[2].channel, 1);
    assert_eq!(clip.duration_ticks, 70);
}

#[test]
fn recorded_notes_left_open_end_at_the_last_tick() {
    let events = vec![event(0, 0x90, 3, 64, 90), event(100, 0xb0, 3, 1, 2)];
    let clip = assemble_recorded_midi(&events, "c".into(), "t", TimelineTick(0));
    assert_eq!(clip.notes.len(), 1);
    assert_eq!(clip.notes[0].id, "note:recorded:open:3:64");
    assert_eq!(clip.notes[0].duration_ticks, 100);
    assert_eq!(clip.duration_ticks, 101);
}

#[test]
fn an_empty_recording_lasts_one_tick() {
    let clip = assemble_recorded_midi(&Vec::new(), "c".into(), "t", TimelineTick(0));
    assert!(clip.notes.is_empty());
    assert!(clip.events.is_empty());
    assert_eq!(clip.duration_ticks, 1);
}

#[test]
fn a_zero_length_note_lasts_one_tick() {
    let events = vec![event(5, 0x90, 1, 60, 100), event(5, 0x80, 1, 60, 0)];
    let clip = assemble_recorded_midi(&events, "c".into(), "t", TimelineTick(0));
    assert_eq!(clip.notes[0].duration_ticks, 1);
    assert_eq!(clip.duration_ticks, 6);
}
