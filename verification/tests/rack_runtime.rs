use riffra::asset::{AssetId, AssetKind};
use riffra::model::AudioState;
use riffra::rack::{DeviceKind, RackDefinition, RackDevice};
use riffra::rack_runtime::{
    audio_command_succeeded, check_definition_kind, check_definition_supported, check_saved_plugin,
    definition_after_apply, definition_after_clear, persistence_failure, plugin_device, restore_after_clear,
    rollback_after_clear, rollback_after_reload, with_plugin_device, with_plugins_bypassed, without_plugins,
    ApplyCommand, ApplyStep, CommandReport, PluginApply, RestoreStep, RollbackStep,
};

fn ready(parameter_count: usize) -> Result<CommandReport, String> {
    Ok(CommandReport { state: AudioState::Ready, parameter_count })
}

fn issued(step: ApplyStep) -> ApplyCommand {
    match step {
        ApplyStep::Issue(command) => command,
        ApplyStep::Applied(state) => panic!("applied early in {state:?}"),
        ApplyStep::Failed(error) => panic!("failed: {error}"),
    }
}

fn device(id: &str, kind: DeviceKind, path: Option<&str>, placeholder: bool) -> RackDevice<u32> {
    RackDevice {
        id: id.to_string(),
        name: id.to_string(),
        kind,
        path: path.map(str::to_string),
        bypassed: false,
        state_data: None,
        disabled_placeholder: placeholder,
        settings: 0,
    }
}

#[test]
fn only_usable_engine_states_count_as_success() {
    assert!(audio_command_succeeded(AudioState::Ready));
    assert!(audio_command_succeeded(AudioState::Muted));
    assert!(audio_command_succeeded(AudioState::Starting));
    assert!(!audio_command_succeeded(AudioState::Faulted));
    assert!(!audio_command_succeeded(AudioState::Offline));
}

#[test]
fn a_missing_bundle_fails_before_any_command() {
    let (_, step) = PluginApply::begin("C:/VST3/Amp.vst3", false, 2, None, false);
    match step {
        ApplyStep::Failed(error) => assert_eq!(error, "Rack references a missing or invalid plugin bundle: C:/VST3/Amp.vst3"),
        _ => panic!("expected failure"),
    }
    let (_, step) = PluginApply::begin("C:/VST3/Amp.dll", true, 2, None, false);
    assert!(matches!(step, ApplyStep::Failed(_)));
}

#[test]
fn parameters_are_restored_up_to_what_the_plugin_exposes_then_bypassed() {
    let (mut apply, step) = PluginApply::begin("C:/VST3/Amp.vst3", true, 3, None, true);
    assert_eq!(issued(step), ApplyCommand::LoadPlugin);
    assert_eq!(issued(apply.step(ready(2))), ApplyCommand::SetParameter(0));
    assert_eq!(issued(apply.step(ready(2))), ApplyCommand::SetParameter(1));
    assert_eq!(issued(apply.step(ready(2))), ApplyCommand::SetBypassed);
    assert!(matches!(apply.step(ready(2)), ApplyStep::Applied(AudioState::Ready)));
}

#[test]
fn a_saved_state_replaces_individual_parameters() {
    let (mut apply, step) = PluginApply::begin("C:/VST3/Amp.vst3", true, 3, Some("blob"), false);
    assert_eq!(issued(step), ApplyCommand::LoadPlugin);
    assert_eq!(issued(apply.step(ready(3))), ApplyCommand::SetPluginState);
    assert!(matches!(apply.step(ready(3)), ApplyStep::Applied(AudioState::Ready)));
    let (mut empty, _) = PluginApply::begin("C:/VST3/Amp.vst3", true, 1, Some(""), false);
    assert_eq!(issued(empty.step(ready(1))), ApplyCommand::SetParameter(0));
}

#[test]
fn a_faulted_engine_or_an_error_stops_the_apply() {
    let (mut apply, _) = PluginApply::begin("C:/VST3/Amp.vst3", true, 3, None, true);
    let faulted = Ok(CommandReport { state: AudioState::Faulted, parameter_count: 3 });
    assert!(matches!(apply.step(faulted), ApplyStep::Applied(AudioState::Faulted)));
    let (mut apply, _) = PluginApply::begin("C:/VST3/Amp.vst3", true, 3, None, true);
    match apply.step(Err("sidecar gone".to_string())) {
        ApplyStep::Failed(error) => assert_eq!(error, "sidecar gone"),
        _ => panic!("expected failure"),
    }
}

#[test]
fn rollback_reloads_the_previous_plugin_or_reports_why_it_cannot() {
    let previous = device("plugin:amp", DeviceKind::Plugin, Some("C:/VST3/Amp.vst3"), false);
    assert!(matches!(rollback_after_clear(Ok(AudioState::Ready), Some(&previous)), RollbackStep::ReloadPrevious));
    assert!(matches!(rollback_after_clear::<u32>(Ok(AudioState::Ready), None), RollbackStep::Done));
    let pathless = device("plugin:amp", DeviceKind::Plugin, None, false);
    assert!(matches!(rollback_after_clear(Ok(AudioState::Ready), Some(&pathless)), RollbackStep::Done));
    match rollback_after_clear(Ok(AudioState::Offline), Some(&previous)) {
        RollbackStep::Failed(error) => assert_eq!(error, "Runtime could not clear the plugin during rollback."),
        other => panic!("unexpected {other:?}"),
    }
    assert_eq!(rollback_after_reload("Amp", Ok(AudioState::Ready)), Ok(()));
    assert_eq!(
        rollback_after_reload("Amp", Ok(AudioState::Faulted)),
        Err("Runtime could not reload the previous plugin 'Amp' during rollback.".to_string())
    );
}

#[test]
fn a_failed_save_is_reported_with_the_rollback_outcome() {
    assert_eq!(
        persistence_failure("disk full", Ok(())),
        "The rack change was applied to the runtime but the session could not be saved; the previous rack was restored. Persistence error: disk full"
    );
    assert_eq!(
        persistence_failure("disk full", Err("reload failed".to_string())),
        "The rack change was applied to the runtime but the session could not be saved, and runtime rollback also failed (reload failed). The runtime may be out of sync with the persisted session. Persistence error: disk full"
    );
}

#[test]
fn rack_edits_keep_one_plugin_device() {
    let rack = vec![
        device("input", DeviceKind::Input, None, false),
        device("plugin:old", DeviceKind::Plugin, Some("C:/VST3/Old.vst3"), false),
        device("output", DeviceKind::Output, None, false),
    ];
    let loaded = with_plugin_device(rack.clone(), plugin_device("C:/VST3/Amp.vst3", "Amp", false, None, 7));
    let ids: Vec<&str> = loaded.iter().map(|d| d.id.as_str()).collect();
    assert_eq!(ids, vec!["input", "output", "plugin:C:/VST3/Amp.vst3"]);
    assert_eq!(loaded[2].settings, 7);
    let cleared = without_plugins(loaded.clone());
    assert_eq!(cleared.len(), 2);
    let bypassed = with_plugins_bypassed(loaded, true);
    assert!(bypassed[2].bypassed);
    assert!(!bypassed[0].bypassed);
}

#[test]
fn startup_restore_applies_the_first_active_plugin() {
    let rack = vec![
        device("plugin:gone", DeviceKind::Plugin, Some("C:/VST3/Gone.vst3"), true),
        device("plugin:amp", DeviceKind::Plugin, Some("C:/VST3/Amp.vst3"), false),
    ];
    assert!(matches!(restore_after_clear((AudioState::Ready, String::new()), &rack), RestoreStep::Apply(1)));
    match restore_after_clear((AudioState::Faulted, "device lost".to_string()), &rack) {
        RestoreStep::Failed(error) => assert_eq!(error, "Runtime rejected startup rack clear: device lost"),
        other => panic!("unexpected {other:?}"),
    }
    let pathless = vec![device("plugin:amp", DeviceKind::Plugin, None, false)];
    match restore_after_clear((AudioState::Ready, String::new()), &pathless) {
        RestoreStep::Failed(error) => assert_eq!(error, "The saved rack plugin has no runtime path."),
        other => panic!("unexpected {other:?}"),
    }
    assert!(matches!(restore_after_clear::<u32>((AudioState::Muted, String::new()), &vec![]), RestoreStep::Cleared));
    assert_eq!(
        check_saved_plugin("C:/VST3/Amp.vst3", false),
        Err("The saved rack plugin is unavailable: C:/VST3/Amp.vst3".to_string())
    );
    assert_eq!(check_saved_plugin("C:/VST3/Amp.vst3", true), Ok(()));
}

#[test]
fn loading_a_rack_definition_checks_kind_support_and_each_runtime_step() {
    let id = AssetId::from_normalized("asset:01890a5d-ac96-774b-bcce-b302099a8057".to_string()).unwrap();
    assert_eq!(check_definition_kind(&id, AssetKind::RackDefinition), Ok(()));
    assert_eq!(
        check_definition_kind(&id, AssetKind::Audio),
        Err("Asset asset:01890a5d-ac96-774b-bcce-b302099a8057 is not a RackDefinition.".to_string())
    );
    let one: RackDefinition<u32, ()> = RackDefinition {
        devices: vec![device("plugin:amp", DeviceKind::Plugin, Some("C:/VST3/Amp.vst3"), false)],
        macros: Vec::new(),
    };
    assert_eq!(check_definition_supported(&one), Ok(()));
    let two: RackDefinition<u32, ()> = RackDefinition {
        devices: vec![
            device("plugin:amp", DeviceKind::Plugin, Some("C:/VST3/Amp.vst3"), false),
            device("plugin:verb", DeviceKind::Plugin, Some("C:/VST3/Verb.vst3"), false),
        ],
        macros: Vec::new(),
    };
    assert_eq!(
        check_definition_supported(&two),
        Err("unsupported rack definition: unsupported rack definition: the runtime supports a single plugin device but this definition carries 2".to_string())
    );
    match definition_after_clear((AudioState::Faulted, "busy".to_string()), &one.devices) {
        RestoreStep::Failed(error) => {
            assert_eq!(error, "Runtime could not clear the existing plugin before applying the rack: busy")
        }
        other => panic!("unexpected {other:?}"),
    }
    assert!(matches!(definition_after_clear((AudioState::Ready, String::new()), &one.devices), RestoreStep::Apply(0)));
    let pathless = vec![device("plugin:amp", DeviceKind::Plugin, None, false)];
    match definition_after_clear((AudioState::Ready, String::new()), &pathless) {
        RestoreStep::Failed(error) => assert_eq!(error, "Rack definition references a plugin device without a path."),
        other => panic!("unexpected {other:?}"),
    }
    assert_eq!(definition_after_apply("Amp", AudioState::Ready), Ok(()));
    assert_eq!(
        definition_after_apply("Amp", AudioState::Faulted),
        Err("Runtime rejected plugin 'Amp'; the rack was not applied.".to_string())
    );
}
