use riffra::runtime_snapshot::{instrument_base_dir, plan_runtime_snapshot, InstrumentResource, ClipLocation, DeviceCheck, InstrumentCheck, TrackRuntimeInput};

fn device(id: &str, is_plugin: bool, disabled_placeholder: bool, path_present: bool) -> DeviceCheck {
    DeviceCheck { id: id.to_string(), is_plugin, disabled_placeholder, path_present }
}

fn clip(clip_id: &str, track_id: &str, location: Option<&str>) -> ClipLocation {
    ClipLocation { clip_id: clip_id.to_string(), track_id: track_id.to_string(), location: location.map(str::to_string) }
}

#[test]
fn missing_plugins_become_disabled_placeholders_and_are_reported() {
    let tracks = vec![
        TrackRuntimeInput {
            id: "guitar".to_string(),
            devices: vec![
                device("amp", true, false, false),
                device("eq", false, false, true),
                device("old", true, true, false),
            ],
            instrument: None,
        },
        TrackRuntimeInput {
            id: "keys".to_string(),
            devices: vec![],
            instrument: Some(InstrumentCheck::Vst3 { id: "synth".to_string(), disabled_placeholder: false, path_present: false }),
        },
        TrackRuntimeInput { id: "pads".to_string(), devices: vec![], instrument: Some(InstrumentCheck::Internal) },
    ];
    let plan = plan_runtime_snapshot(&tracks, &vec![]);
    assert_eq!(plan.tracks[0].device_disabled, vec![true, false, true]);
    assert_eq!(plan.tracks[0].instrument_disabled, None);
    assert_eq!(plan.tracks[1].instrument_disabled, Some(true));
    assert_eq!(plan.tracks[2].instrument_disabled, None);
    assert_eq!(plan.missing_device_ids, vec!["amp".to_string(), "synth".to_string()]);
}

#[test]
fn audio_clips_are_projected_per_track_and_unresolved_ones_are_reported() {
    let tracks = vec![
        TrackRuntimeInput { id: "guitar".to_string(), devices: vec![], instrument: None },
        TrackRuntimeInput { id: "bass".to_string(), devices: vec![], instrument: None },
    ];
    let clips = vec![
        clip("c1", "bass", Some("C:/bass.wav")),
        clip("c2", "guitar", None),
        clip("c3", "guitar", Some("C:/guitar.wav")),
        clip("c4", "drums", Some("C:/drums.wav")),
    ];
    let plan = plan_runtime_snapshot(&tracks, &clips);
    assert_eq!(plan.tracks[0].audio_clips, vec![(2, "C:/guitar.wav".to_string())]);
    assert_eq!(plan.tracks[1].audio_clips, vec![(0, "C:/bass.wav".to_string())]);
    assert_eq!(plan.unavailable_clip_ids, vec!["c2".to_string()]);
    assert!(plan.missing_device_ids.is_empty());
}

#[test]
fn instrument_definitions_are_read_from_their_own_folder() {
    let resolved = InstrumentResource::BuiltInPreset { resolved_base_dir: Some("catalog/piano".into()) };
    assert_eq!(instrument_base_dir("data", "catalog", &resolved), "catalog/piano");
    let unresolved = InstrumentResource::BuiltInPreset { resolved_base_dir: None };
    assert_eq!(instrument_base_dir("data", "catalog", &unresolved), "catalog");
    let snapshot = InstrumentResource::UserSnapshot { snapshot_id: "snap-1".into() };
    assert_eq!(instrument_base_dir("data", "catalog", &snapshot).replace('\\', "/"), "data/project-instruments/snap-1");
}
