use riffra::audio_preferences::{access_mode_for_driver, load_or_default, AudioPreferences, AudioPreferencesStore, LoadDecision};
use riffra::model::AudioAccessMode;
use riffra::native_audio::{apply_native_error, classify_native_line, parse_native_line, audio_state_from_native, render_native_error, sidecar_restart_required, NativeLine};
use riffra::model::AudioState;
use riffra::shell::{check_probe_message, probe_lines, safe_mode_env_value, safe_mode_from_args, lock_error, AdapterError, ErrorCode, ProtocolError};

fn args(values: &[&str]) -> Vec<String> {
    values.iter().map(|value| value.to_string()).collect()
}

#[test]
fn defaults_to_low_latency_shared_windows_audio() {
    let preferences = AudioPreferences::default();
    assert_eq!(preferences.driver, "Windows Audio (Low Latency Mode)");
    assert_eq!(access_mode_for_driver(&preferences.driver), AudioAccessMode::Shared);
}

#[test]
fn classifies_windows_and_driver_managed_backends() {
    assert_eq!(access_mode_for_driver("Windows Audio"), AudioAccessMode::Shared);
    assert_eq!(access_mode_for_driver("Windows Audio (Exclusive Mode)"), AudioAccessMode::Exclusive);
    assert_eq!(access_mode_for_driver("ASIO"), AudioAccessMode::DriverManaged);
}

#[test]
fn recognizes_safe_mode_only_from_explicit_flag() {
    assert!(safe_mode_from_args(&args(&["riffra.exe", "--safe-mode"])));
    assert!(safe_mode_from_args(&args(&["--SAFE-MODE"])));
    assert!(!safe_mode_from_args(&args(&["riffra.exe", "--serve"])));
}

#[test]
fn safe_mode_environment_values_are_trimmed_and_case_insensitive() {
    assert!(safe_mode_env_value(" TRUE "));
    assert!(safe_mode_env_value("1"));
    assert!(safe_mode_env_value("On"));
    assert!(safe_mode_env_value("yes"));
    assert!(!safe_mode_env_value("0"));
    assert!(!safe_mode_env_value("enabled"));
    assert!(!safe_mode_env_value(""));
}

#[test]
fn classifies_audio_device_errors_as_faults() {
    let (fault, detail) = render_native_error("audioDevice", "device missing");
    assert!(fault);
    assert!(detail.contains("device missing"));
}

#[test]
fn classifies_other_errors_as_command_failures() {
    let (fault, detail) = render_native_error("plugin", "load failed");
    assert!(!fault);
    assert!(detail.contains("plugin"));
}

#[test]
fn identifies_lost_sidecar_transport_for_recovery() {
    assert!(sidecar_restart_required(
        "Audio recording command could not reach the isolated audio process: pipe closed."
    ));
    assert!(!sidecar_restart_required("Native audio device error: device missing."));
}

#[test]
fn plugin_error_preserves_audio_state() {
    let line = classify_native_line(Some("error"), None, Some("plugin"), Some("load failed")).unwrap();
    match line {
        NativeLine::Error { fault, detail, .. } => {
            let (state, message) = apply_native_error(AudioState::Ready, fault, detail);
            assert_eq!(state, AudioState::Ready);
            assert!(message.contains("plugin"));
        }
        NativeLine::Status { .. } => panic!("expected an error line"),
    }
}

#[test]
fn audio_device_error_faults_audio_state() {
    let line = classify_native_line(Some("error"), None, Some("audioDevice"), Some("device missing")).unwrap();
    match line {
        NativeLine::Error { fault, detail, .. } => {
            let (state, message) = apply_native_error(AudioState::Ready, fault, detail);
            assert_eq!(state, AudioState::Faulted);
            assert!(message.contains("device missing"));
        }
        NativeLine::Status { .. } => panic!("expected an error line"),
    }
}

#[test]
fn preserves_request_ids_for_command_acknowledgements() {
    match classify_native_line(Some("audioStatus"), Some(42), None, None).expect("status reply") {
        NativeLine::Status { request_id } => assert_eq!(request_id, Some(42)),
        NativeLine::Error { .. } => panic!("expected a status line"),
    }
    match classify_native_line(Some("error"), Some(43), Some("recording"), Some("no input")).expect("error reply") {
        NativeLine::Error { request_id, .. } => assert_eq!(request_id, Some(43)),
        NativeLine::Status { .. } => panic!("expected an error line"),
    }
}

#[test]
fn error_reply_without_scope_defaults_to_protocol() {
    match classify_native_line(Some("error"), Some(9), None, Some("no input")).expect("error line") {
        NativeLine::Error { request_id, fault, detail } => {
            assert_eq!(request_id, Some(9));
            assert!(!fault);
            assert!(detail.contains("protocol"));
        }
        NativeLine::Status { .. } => panic!("expected an error line"),
    }
}

#[test]
fn ignores_non_json_and_unrecognized_lines() {
    assert!(classify_native_line(None, None, None, None).is_none());
    assert!(classify_native_line(Some("keepAlive"), None, None, None).is_none());
}

#[test]
fn rejects_non_probe_messages() {
    let error = check_probe_message(Some("audioStatus")).unwrap_err();
    assert!(error.contains("unexpected"));
    assert!(check_probe_message(Some("audioDeviceProbe")).is_ok());
    assert_eq!(check_probe_message(None).unwrap_err(), "MIDI probe returned no readable device list.");
}

#[test]
fn probe_output_is_split_into_non_empty_lines() {
    let lines = probe_lines(b"\n{\"a\":1}\n\nsecond\n");
    assert_eq!(lines, vec![b"{\"a\":1}".to_vec(), b"second".to_vec()]);
    assert!(probe_lines(b"").is_empty());
    assert_eq!(probe_lines(b"tail"), vec![b"tail".to_vec()]);
}

#[test]
fn parses_midi_probe_with_unicode_device_names() {
    let stdout = "{\"type\":\"audioDeviceProbe\",\"drivers\":[{\"name\":\"ASIO\"}],\"midiInputs\":[\"Keyboard\"],\"midiOutputs\":[\"Microsoft GS Wavetable Synth\"]}".as_bytes();
    let lines = probe_lines(stdout);
    let value: serde_json::Value = serde_json::from_slice(&lines[0]).unwrap();
    assert!(check_probe_message(value["type"].as_str()).is_ok());
    assert_eq!(value["drivers"][0]["name"], "ASIO");
    assert_eq!(value["midiInputs"][0], "Keyboard");
}

#[test]
fn default_preferences_are_written_when_none_are_stored() {
    match load_or_default(Ok(None)) {
        LoadDecision::WriteDefaults(preferences) => assert_eq!(preferences, AudioPreferences::default()),
        LoadDecision::UseStored(_) => panic!("expected defaults"),
    }
    match load_or_default(Err("unsupported format".to_string())) {
        LoadDecision::WriteDefaults(preferences) => assert_eq!(preferences, AudioPreferences::default()),
        LoadDecision::UseStored(_) => panic!("expected defaults"),
    }
    let existing = AudioPreferences {
        driver: "ASIO".into(),
        input_channel: 1,
        sample_rate: Some(48_000),
        buffer_size: Some(128),
        ..AudioPreferences::default()
    };
    match load_or_default(Ok(Some(existing.clone()))) {
        LoadDecision::UseStored(preferences) => assert_eq!(preferences, existing),
        LoadDecision::WriteDefaults(_) => panic!("expected the stored preferences"),
    }
}

#[test]
fn preference_file_lives_under_settings() {
    let store = AudioPreferencesStore::new("root");
    assert!(store.path().starts_with("root"));
    assert!(store.path().ends_with("audio.json"));
    assert!(store.path().contains("settings"));
}

#[test]
fn lock_and_adapter_errors_carry_their_detail() {
    assert_eq!(lock_error("poisoned"), "An internal state lock was poisoned: poisoned");
    let conflict = AdapterError::Conflict { expected_sequence: 3, current_sequence: 5 };
    assert_eq!(conflict.message(), "canonical state changed: expected sequence 3, current sequence 5");
    assert_eq!(AdapterError::command("failed".into()).message(), "failed");
    let project = AdapterError::ProjectConflict { expected_project_id: "a".into(), current_project_id: "b".into() };
    assert_eq!(project.message(), "active project changed: expected a, current b");
}

#[test]
fn parses_native_reply_lines_from_json_text() {
    match parse_native_line(br#"{"type":"audioStatus","requestId":7,"state":"ready","midiInputActive":true}"#, true) {
        Some(NativeLine::Status { request_id }) => assert_eq!(request_id, Some(7)),
        _ => panic!("expected a status line"),
    }
    match parse_native_line(br#"{"type":"error","requestId":43,"scope":"recording","message":"no input"}"#, false) {
        Some(NativeLine::Error { request_id, fault, detail }) => {
            assert_eq!(request_id, Some(43));
            assert!(!fault);
            assert_eq!(detail, "Native recording command failed: no input. Audio and saved data remain safe.");
        }
        _ => panic!("expected an error line"),
    }
    match parse_native_line(br#"{"type":"error"}"#, false) {
        Some(NativeLine::Error { request_id, detail, .. }) => {
            assert_eq!(request_id, None);
            assert_eq!(detail, "Native protocol command failed: Unknown native error.. Audio and saved data remain safe.");
        }
        _ => panic!("expected an error line"),
    }
    assert!(parse_native_line(b"not json", false).is_none());
    assert!(parse_native_line(br#"{"type":"audioStatus","state":"ready"}"#, false).is_none());
    assert!(parse_native_line(br#"{"type":"heartbeat"}"#, true).is_none());
    assert!(parse_native_line(br#"{"requestId":"7"}"#, true).is_none());
}

#[test]
fn adapter_errors_map_to_their_protocol_errors() {
    let conflict = AdapterError::Conflict { expected_sequence: 4, current_sequence: 7 };
    assert!(matches!(conflict.protocol_error(), ProtocolError::Conflict { expected_sequence: 4, current_sequence: 7 }));
    let project = AdapterError::ProjectConflict { expected_project_id: "a".into(), current_project_id: "b".into() };
    match project.protocol_error() {
        ProtocolError::ProjectConflict { expected_project_id, current_project_id } => {
            assert_eq!(expected_project_id, "a");
            assert_eq!(current_project_id, "b");
        }
        _ => panic!("expected a project conflict"),
    }
    match AdapterError::runtime("sidecar down".into()).protocol_error() {
        ProtocolError::Coded { code, message } => {
            assert_eq!(code, ErrorCode::RuntimeUnavailable);
            assert_eq!(message, "sidecar down");
        }
        _ => panic!("expected a coded error"),
    }
    match AdapterError::command("refused".into()).protocol_error() {
        ProtocolError::Coded { code, message } => {
            assert_eq!(code, ErrorCode::CommandFailed);
            assert_eq!(message, "refused");
        }
        _ => panic!("expected a coded error"),
    }
}

#[test]
fn parses_status_reply_with_request_id() {
    let line = br#"{"type":"audioStatus","requestId":7,"state":"ready","midiInputActive":true}"#;
    match parse_native_line(line, true).expect("status line") {
        NativeLine::Status { request_id } => assert_eq!(request_id, Some(7)),
        NativeLine::Error { .. } => panic!("expected a status line"),
    }
    // The status payload itself is decoded by the host; its state word is
    // read by the library.
    let payload: serde_json::Value = serde_json::from_slice(line).unwrap();
    assert_eq!(payload["state"], "ready");
    assert_eq!(audio_state_from_native(payload["state"].as_str().unwrap()), AudioState::Ready);
    assert_eq!(payload["midiInputActive"].as_bool(), Some(true));
}
