use riffra::asset::AssetId;
use riffra::audio_preferences::{effective_preferences, load_parsed, load_preferences, AudioPreferences, LoadDecision};
use riffra::missing::{collect_missing, mark_disabled_placeholder, relink_asset_name, relink_registered, FileCheck};
use riffra::rack::{DeviceKind, RackDevice};
use riffra::path::PathPart;
use riffra::recording_index::{archive, audio_paths, check_inbox_child, inbox_take_text, promote, rename, validate_take_name};
use riffra::session::{AudioClipRef, SessionReferences};

const OLD: &str = "asset:01890a5d-ac96-7000-8000-000000000001";
const NEW: &str = "asset:01890a5d-ac96-7000-8000-000000000002";

fn id(text: &str) -> AssetId {
    AssetId::from_normalized(text.to_string()).unwrap()
}

fn plugin(id: &str) -> RackDevice<()> {
    RackDevice {
        id: id.to_string(),
        name: id.to_string(),
        kind: DeviceKind::Plugin,
        path: Some(format!("C:/VST3/{id}.vst3")),
        bypassed: false,
        state_data: None,
        disabled_placeholder: false,
        settings: (),
    }
}

fn session() -> SessionReferences<()> {
    SessionReferences {
        audio_clips: vec![AudioClipRef { id: "clip:1".into(), name: "Take".into(), asset_id: id(OLD) }],
        pads: Vec::new(),
        devices: vec![plugin("plugin:gone"), plugin("plugin:other")],
        design_target: None,
    }
}

#[test]
fn a_refused_registration_relinks_nothing() {
    let refused = relink_registered(session(), &id(OLD), Err("Asset content location does not exist.".to_string()));
    assert_eq!(refused.err().as_deref(), Some("Asset content location does not exist."));
    let relinked = relink_registered(session(), &id(OLD), Ok(id(NEW))).ok().unwrap();
    assert_eq!(relinked.audio_clips[0].asset_id.as_str(), NEW);
    assert_eq!(relink_asset_name("C:/media/new take.wav").is_empty(), false);
    assert_eq!(relink_asset_name("media/new take.wav"), "new take");
    assert_eq!(relink_asset_name(""), "audio");
}

#[test]
fn marking_a_plugin_disabled_drops_only_that_plugin_from_the_missing_list() {
    let mut s = session();
    let checks = vec![FileCheck { location: None, is_file: false }];
    let before = collect_missing(&s, &checks, &Vec::new(), &vec![false, false]);
    assert_eq!(before.len(), 3);
    mark_disabled_placeholder(&mut s, "plugin:gone");
    assert_eq!(s.devices.len(), 2);
    let after = collect_missing(&s, &checks, &Vec::new(), &vec![false, false]);
    assert_eq!(after.len(), 2);
    assert_eq!(after[0].kind, "file");
    assert!(after.iter().all(|m| !(m.kind == "plugin" && m.id == "plugin:gone")));
    assert_eq!(after[1].id, "plugin:other");
}

#[test]
fn a_single_name_renames_a_take_and_a_path_does_not() {
    assert_eq!(validate_take_name("  Keeper  "), Ok("Keeper".to_string()));
    assert!(validate_take_name("../escape").is_err());
    assert!(validate_take_name("a/b").is_err());
    let (destination, take_id) = rename(Some("inbox"), " Keeper ").unwrap();
    assert!(destination.starts_with("inbox") && destination.ends_with("Keeper"));
    assert_eq!(take_id, format!("recording:{destination}"));
    assert_eq!(
        rename(None, "Keeper"),
        Err("Recording Inbox could not be resolved.".to_string())
    );
    assert_eq!(
        rename(Some("inbox"), ".."),
        Err("New take name must be a single folder name without separators.".to_string())
    );
}

#[test]
fn archived_and_promoted_takes_leave_the_inbox() {
    let (destination, take_id) = archive("root", Some("take-1".to_string())).unwrap();
    assert!(destination.starts_with("root") && destination.ends_with("take-1") && destination.contains("archive"));
    assert_eq!(take_id, format!("recording:{destination}"));
    let (destination, _) = promote("root", Some("take-1".to_string())).unwrap();
    assert!(destination.contains("library"));
    assert_eq!(archive("root", None), Err("Recording take name could not be read.".to_string()));
}

#[test]
fn a_take_lists_only_the_files_that_resolved() {
    let paths = audio_paths(Ok("t/raw.wav".into()), Err("missing".into()), true, "t/midi.json".into());
    assert_eq!(paths, (Some("t/raw.wav".to_string()), None, Some("t/midi.json".to_string())));
    assert_eq!(audio_paths(Err("x".into()), Ok("p".into()), false, "m".into()), (None, Some("p".to_string()), None));
}

#[test]
fn outdated_or_invalid_stored_preferences_give_the_defaults() {
    let outdated = AudioPreferences { format_version: 1, ..AudioPreferences::default() };
    assert!(load_parsed(Ok(Some(outdated.clone()))).is_err());
    match load_preferences(Ok(Some(outdated))) {
        LoadDecision::WriteDefaults(p) => assert_eq!(p, AudioPreferences::default()),
        LoadDecision::UseStored(_) => panic!("expected defaults"),
    }
    let stored = AudioPreferences {
        driver: " ASIO ".into(),
        sample_rate: Some(48_000),
        buffer_size: Some(128),
        ..AudioPreferences::default()
    };
    match load_preferences(Ok(Some(stored))) {
        LoadDecision::UseStored(p) => assert_eq!(p.driver, "ASIO"),
        LoadDecision::WriteDefaults(_) => panic!("expected the stored preferences"),
    }
    assert!(matches!(load_preferences(Ok(None)), LoadDecision::WriteDefaults(_)));
    assert!(matches!(load_parsed(Ok(None)), Ok(None)));
}

#[test]
fn saved_preferences_load_back_unchanged() {
    let existing = AudioPreferences {
        driver: "ASIO".into(),
        input_channel: 1,
        sample_rate: Some(48_000),
        buffer_size: Some(128),
        ..AudioPreferences::default()
    };
    let written = existing.clone().validate_and_normalize().unwrap();
    assert_eq!(written, existing);
    assert_eq!(load_parsed(Ok(Some(written.clone()))), Ok(Some(existing.clone())));
    match load_preferences(Ok(Some(written))) {
        LoadDecision::UseStored(p) => assert_eq!(p, existing),
        LoadDecision::WriteDefaults(_) => panic!("valid stored preferences must be kept"),
    }
}

#[test]
fn archived_and_promoted_takes_go_to_their_own_folders() {
    let (archived, _) = archive("root", Some("take-1".to_string())).unwrap();
    let (promoted, _) = promote("root", Some("take-1".to_string())).unwrap();
    let archived = archived.replace('\\', "/");
    let promoted = promoted.replace('\\', "/");
    assert_eq!(archived, "root/recordings/archive/take-1");
    assert_eq!(promoted, "root/recordings/library/take-1");
}

#[test]
fn only_a_direct_child_of_the_inbox_may_leave_it() {
    assert_eq!(inbox_take_text("recording:  /data/recordings/inbox/t1 "), Ok("/data/recordings/inbox/t1".to_string()));
    assert_eq!(inbox_take_text("/x"), Ok("/x".to_string()));
    assert_eq!(inbox_take_text("recording:   "), Err("Recording take id is empty.".to_string()));
    assert_eq!(check_inbox_child(Some(vec![PathPart::Normal("t1".into())])), Ok(()));
    assert_eq!(
        check_inbox_child(Some(vec![PathPart::Normal("t1".into()), PathPart::Normal("inner".into())])),
        Err("Recording take must be a direct child of the Inbox.".to_string())
    );
    assert_eq!(check_inbox_child(Some(vec![])), Err("Recording take must be a direct child of the Inbox.".to_string()));
    assert_eq!(check_inbox_child(None), Err("Recording take is not inside the Inbox.".to_string()));
}

#[test]
fn startup_keeps_the_stored_preferences_in_safe_mode_or_without_a_status() {
    let stored = AudioPreferences { driver: "ASIO".into(), ..AudioPreferences::default() };
    let active = AudioPreferences { driver: "Windows Audio".into(), sample_rate: Some(48_000), ..AudioPreferences::default() };
    assert_eq!(effective_preferences(stored.clone(), true, Some(Ok(active.clone()))), Ok(stored.clone()));
    assert_eq!(effective_preferences(stored.clone(), false, None), Ok(stored.clone()));
    assert_eq!(effective_preferences(stored.clone(), false, Some(Ok(active.clone()))), Ok(active));
    assert_eq!(
        effective_preferences(stored, false, Some(Err("Native audio did not report an active driver.".into()))),
        Err("Native audio did not report an active driver.".to_string())
    );
}
