use riffra::asset::AssetKind;
use riffra::errors::DomainError;
use riffra::rack::{DeviceKind, RackDefinition, RackDevice, RackInstance};
use riffra::recording::{RecordingCapture, RecordingCaptureStatus};

#[derive(Clone, Debug, PartialEq)]
struct Settings {
    gain_db: f64,
    parameter_values: Vec<f64>,
}

fn device(id: &str, kind: DeviceKind, path: Option<&str>, parameter_values: Vec<f64>) -> RackDevice<Settings> {
    RackDevice {
        id: id.into(),
        name: id.into(),
        kind,
        path: path.map(|value| value.into()),
        bypassed: false,
        state_data: None,
        disabled_placeholder: false,
        settings: Settings { gain_db: 0.0, parameter_values },
    }
}

fn definition() -> RackDefinition<Settings, ()> {
    let mut reverb = device("plugin:rev", DeviceKind::Plugin, Some("C:\\VST3\\reverb.vst3"), vec![0.5]);
    reverb.name = "Reverb".into();
    reverb.state_data = Some("state".into());
    RackDefinition { devices: vec![reverb], macros: Vec::new() }
}

fn plugin_device(id: &str, path: Option<&str>) -> RackDevice<Settings> {
    device(id, DeviceKind::Plugin, path, Vec::new())
}

#[test]
fn loading_a_definition_into_an_instance_does_not_share_state() {
    let definition = definition();
    let mut instance = RackInstance::from_definition(&definition);
    instance.devices[0].bypassed = true;
    assert!(!definition.devices[0].bypassed, "definition must be unchanged");
}

#[test]
fn editing_an_instance_and_rebuilding_keeps_definition_stable() {
    let definition = definition();
    let mut instance = RackInstance::from_definition(&definition);
    instance.devices[0].settings.parameter_values[0] = 0.9;
    let rebuilt = RackDefinition::from_instance(&instance);
    assert_eq!(rebuilt.devices[0].settings.parameter_values, vec![0.9]);
    assert_eq!(definition.devices[0].settings.parameter_values, vec![0.5]);
}

#[test]
fn saving_an_edited_rack_mints_a_new_definition_asset_id_each_time() {
    let instance = RackInstance::from_definition(&definition());
    let rebuilt = RackDefinition::from_instance(&instance);
    let first = rebuilt.save_as_new_asset("Clean".into(), "C:\\racks\\clean.json".into(), 1_000);
    let second = rebuilt.save_as_new_asset("Clean".into(), "C:\\racks\\clean-2.json".into(), 2_000);
    assert_ne!(first.id.as_str(), second.id.as_str());
    assert_eq!(first.kind, AssetKind::RackDefinition);
}

#[test]
fn runtime_supported_accepts_a_single_plugin_device() {
    let definition: RackDefinition<Settings, ()> = RackDefinition {
        devices: vec![device("input", DeviceKind::Input, None, Vec::new()), plugin_device("plugin:1", Some("C:\\VST3\\reverb.vst3"))],
        macros: Vec::new(),
    };
    assert!(definition.runtime_supported().is_ok());
}

#[test]
fn runtime_supported_rejects_multiple_active_plugin_devices() {
    let definition: RackDefinition<Settings, ()> = RackDefinition {
        devices: vec![plugin_device("plugin:1", Some("C:\\VST3\\a.vst3")), plugin_device("plugin:2", Some("C:\\VST3\\b.vst3"))],
        macros: Vec::new(),
    };
    let error = definition.runtime_supported().unwrap_err();
    assert!(error.contains("unsupported rack definition"), "expected unsupported-rack message, got: {error}");
    assert!(error.contains("2"));
}

#[test]
fn runtime_supported_ignores_disabled_plugin_placeholders() {
    let mut placeholder = plugin_device("plugin:1", Some("C:\\VST3\\missing.vst3"));
    placeholder.disabled_placeholder = true;
    let active = plugin_device("plugin:2", Some("C:\\VST3\\real.vst3"));
    let definition: RackDefinition<Settings, ()> = RackDefinition { devices: vec![placeholder, active], macros: Vec::new() };
    assert!(definition.runtime_supported().is_ok());
}

#[test]
fn active_plugin_device_skips_disabled_placeholder_and_picks_the_real_plugin() {
    let mut placeholder = plugin_device("plugin:1", Some("C:\\VST3\\missing.vst3"));
    placeholder.disabled_placeholder = true;
    let active = plugin_device("plugin:2", Some("C:\\VST3\\real.vst3"));
    let definition: RackDefinition<Settings, ()> = RackDefinition { devices: vec![placeholder, active], macros: Vec::new() };
    let applied = definition.active_plugin_device().expect("a real plugin must be applicable");
    assert_eq!(definition.devices[applied].id, "plugin:2");
    assert!(!definition.devices[applied].disabled_placeholder);
}

#[test]
fn active_plugin_device_is_none_when_only_placeholders_exist() {
    let mut placeholder = plugin_device("plugin:1", Some("C:\\VST3\\missing.vst3"));
    placeholder.disabled_placeholder = true;
    let definition: RackDefinition<Settings, ()> = RackDefinition { devices: vec![placeholder], macros: Vec::new() };
    assert!(definition.active_plugin_device().is_none());
}

fn fresh() -> RecordingCapture<Settings> {
    RecordingCapture::start("capture:1".into(), "scratch-1".into(), 1_000)
}

#[test]
fn allows_every_documented_transition() {
    for (from, to) in [
        (RecordingCaptureStatus::Recording, RecordingCaptureStatus::Completing),
        (RecordingCaptureStatus::Recording, RecordingCaptureStatus::Recoverable),
        (RecordingCaptureStatus::Recording, RecordingCaptureStatus::Failed),
        (RecordingCaptureStatus::Completing, RecordingCaptureStatus::Completed),
        (RecordingCaptureStatus::Completing, RecordingCaptureStatus::Recoverable),
        (RecordingCaptureStatus::Completing, RecordingCaptureStatus::Failed),
    ] {
        assert!(RecordingCapture::<Settings>::allows(from, to), "{from:?}->{to:?} should be allowed");
    }
}

#[test]
fn rejects_undocumented_transitions() {
    for (from, to) in [
        (RecordingCaptureStatus::Completed, RecordingCaptureStatus::Recording),
        (RecordingCaptureStatus::Recoverable, RecordingCaptureStatus::Recording),
        (RecordingCaptureStatus::Failed, RecordingCaptureStatus::Recording),
        (RecordingCaptureStatus::Recording, RecordingCaptureStatus::Completed),
        (RecordingCaptureStatus::Completed, RecordingCaptureStatus::Completing),
        (RecordingCaptureStatus::Recording, RecordingCaptureStatus::Recording),
    ] {
        assert!(!RecordingCapture::<Settings>::allows(from, to), "{from:?}->{to:?} should be rejected");
    }
}

#[test]
fn recording_to_completing_to_completed_records_completion_time() {
    let mut capture = fresh();
    capture.transition(RecordingCaptureStatus::Completing, 2_000).unwrap();
    assert_eq!(capture.status, RecordingCaptureStatus::Completing);
    assert_eq!(capture.completed_at_ms, None);
    capture.transition(RecordingCaptureStatus::Completed, 3_000).unwrap();
    assert_eq!(capture.status, RecordingCaptureStatus::Completed);
    assert_eq!(capture.completed_at_ms, Some(3_000));
}

#[test]
fn terminal_states_cannot_return_to_recording() {
    let mut capture = fresh();
    capture.transition(RecordingCaptureStatus::Failed, 2_000).unwrap();
    let error = capture.transition(RecordingCaptureStatus::Recording, 3_000).unwrap_err();
    assert!(matches!(error, DomainError::InvalidRecordingTransition { .. }));
    assert_eq!(capture.status, RecordingCaptureStatus::Failed);
    assert_eq!(error.message(), "recording capture cannot transition from failed to recording");
}

#[test]
fn status_names_are_lower_case() {
    assert_eq!(RecordingCaptureStatus::Recoverable.as_str(), "recoverable");
    assert_eq!(RecordingCaptureStatus::Completing.as_str(), "completing");
}
