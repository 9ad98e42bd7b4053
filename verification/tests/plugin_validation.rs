use riffra::plugin_catalog::{choose_validated_plugin, StoredPlugin};
use riffra::plugin_validation::{
    absorb_group, apply_outcomes, interpret_result, PluginMetadata, ScanEnvelope, ScanEvent, ScanStep, ScanWatch,
    ValidationOutcome,
};
use riffra::plugins::{PluginEntry, ScanReport};

fn amp_result() -> ScanEnvelope {
    ScanEnvelope {
        message_type: "pluginScanResult".to_string(),
        plugins: Some(vec![PluginMetadata {
            name: "Amp".to_string(),
            vendor: Some("Vendor".to_string()),
            version: Some("1.2".to_string()),
        }]),
        message: None,
    }
}

#[test]
fn parses_successful_scanner_output() {
    match interpret_result(Some(amp_result()), "", Some(0)) {
        ValidationOutcome::Validated(plugin) => {
            assert_eq!(plugin.name, "Amp");
            assert_eq!(plugin.vendor.as_deref(), Some("Vendor"));
        }
        _ => panic!("expected validated plugin"),
    }
}

#[test]
fn quarantines_unexpected_worker_exit() {
    let result = interpret_result(None, "crashed", Some(5));
    match result {
        ValidationOutcome::Quarantined(message) => assert_eq!(
            message,
            "Plugin scanner exited unexpectedly with code Some(5). The candidate is quarantined; session data is safe. Diagnostic: crashed"
        ),
        _ => panic!("expected quarantine"),
    }
}

#[test]
fn a_result_with_a_failing_exit_code_is_quarantined() {
    let result = interpret_result(Some(amp_result()), "  \n", Some(-3));
    match result {
        ValidationOutcome::Quarantined(message) => assert_eq!(
            message,
            "Plugin scanner exited unexpectedly with code Some(-3). The candidate is quarantined; session data is safe."
        ),
        _ => panic!("expected quarantine"),
    }
    match interpret_result(None, "", None) {
        ValidationOutcome::Quarantined(message) => assert!(message.contains("with code None.")),
        _ => panic!("expected quarantine"),
    }
}

#[test]
fn scan_errors_fail_with_the_scanner_message_or_a_default() {
    let envelope = ScanEnvelope {
        message_type: "pluginScanError".to_string(),
        plugins: None,
        message: Some("No component".to_string()),
    };
    assert!(matches!(interpret_result(Some(envelope), "", Some(1)), ValidationOutcome::Failed(m) if m == "No component"));
    let envelope = ScanEnvelope { message_type: "pluginScanError".to_string(), plugins: None, message: None };
    match interpret_result(Some(envelope), "", Some(1)) {
        ValidationOutcome::Failed(m) => assert_eq!(
            m,
            "The isolated scanner found no usable VST3 component. Other plugins and session data are unaffected."
        ),
        _ => panic!("expected failure"),
    }
}

#[test]
fn long_diagnostics_are_cut_to_240_characters() {
    let stderr = "x".repeat(300);
    match interpret_result(None, &stderr, Some(2)) {
        ValidationOutcome::Quarantined(message) => {
            let diagnostic = message.split(" Diagnostic: ").nth(1).unwrap();
            assert_eq!(diagnostic.len(), 240);
        }
        _ => panic!("expected quarantine"),
    }
}

#[test]
fn watch_collects_output_and_decides_on_exit() {
    let mut watch = ScanWatch::new();
    assert!(matches!(watch.step(ScanEvent::Tick { cancelled: false }), ScanStep::Continue));
    assert!(matches!(watch.step(ScanEvent::Stdout(b"{}".to_vec())), ScanStep::Continue));
    assert!(matches!(watch.step(ScanEvent::Stderr(b"warn".to_vec())), ScanStep::Continue));
    assert_eq!(watch.stdout(), b"{}\n");
    match watch.step(ScanEvent::Terminated { code: Some(9), envelope: None }) {
        ScanStep::Finish { outcome: ValidationOutcome::Quarantined(message), kill } => {
            assert!(!kill);
            assert!(message.ends_with("Diagnostic: warn"));
        }
        _ => panic!("expected quarantine"),
    }
}

#[test]
fn watch_kills_a_cancelled_or_late_scanner() {
    let mut watch = ScanWatch::new();
    assert!(matches!(
        watch.step(ScanEvent::Tick { cancelled: true }),
        ScanStep::Finish { outcome: ValidationOutcome::Cancelled, kill: true }
    ));
    match watch.step(ScanEvent::DeadlineElapsed) {
        ScanStep::Finish { outcome: ValidationOutcome::Quarantined(message), kill: true } => assert_eq!(
            message,
            "Plugin scan exceeded 30 seconds and was terminated. The plugin is quarantined; session data is safe."
        ),
        _ => panic!("expected quarantine"),
    }
    match watch.step(ScanEvent::SpawnFailed("denied".to_string())) {
        ScanStep::Finish { outcome: ValidationOutcome::Quarantined(message), kill: false } => assert_eq!(
            message,
            "Isolated scanner could not start: denied. The plugin was not loaded by Riffra."
        ),
        _ => panic!("expected quarantine"),
    }
}

fn discovered(path: &str) -> PluginEntry {
    PluginEntry {
        id: format!("vst3-{path}"),
        name: "Discovered".to_string(),
        vendor: None,
        version: None,
        format: "VST3",
        path: path.to_string(),
        bundle: true,
        modified_at_ms: None,
        scan_state: "discovered",
    }
}

fn report() -> ScanReport {
    ScanReport {
        root: "C:\\VST3".to_string(),
        started_at_ms: 1,
        finished_at_ms: 2,
        plugins: vec![discovered("C:\\VST3\\Amp.vst3"), discovered("C:\\VST3\\Bad.vst3")],
        issues: vec![],
    }
}

#[test]
fn outcomes_relabel_the_report() {
    let results = vec![
        (
            "C:\\VST3\\Amp.vst3".to_string(),
            ValidationOutcome::Validated(PluginMetadata {
                name: "Amp".to_string(),
                vendor: Some(" ".to_string()),
                version: Some("2.0".to_string()),
            }),
        ),
        ("C:\\VST3\\Bad.vst3".to_string(), ValidationOutcome::Quarantined("Crashed".to_string())),
        ("C:\\VST3\\Gone.vst3".to_string(), ValidationOutcome::Failed("Ignored".to_string())),
    ];
    let report = apply_outcomes(report(), results).unwrap();
    assert_eq!(report.plugins[0].name, "Amp");
    assert_eq!(report.plugins[0].vendor, None);
    assert_eq!(report.plugins[0].version.as_deref(), Some("2.0"));
    assert_eq!(report.plugins[0].scan_state, "validated");
    assert_eq!(report.plugins[1].scan_state, "quarantined");
    assert_eq!(report.issues.len(), 1);
    assert_eq!(report.issues[0].path, "C:\\VST3\\Bad.vst3");
    assert_eq!(report.issues[0].message, "Crashed");
}

#[test]
fn a_cancelled_task_abandons_the_validation() {
    let mut report = report();
    let mut pending = Vec::new();
    let group = vec![
        Err("join failed".to_string()),
        Ok(("C:\\VST3\\Amp.vst3".to_string(), ValidationOutcome::Cancelled)),
    ];
    let error = absorb_group(&mut report, &mut pending, group).unwrap_err();
    assert_eq!(
        error,
        "VST3 validation cancelled while checking C:\\VST3\\Amp.vst3; the previous catalog remains unchanged."
    );
    let mut report = self::report();
    let mut pending = Vec::new();
    absorb_group(&mut report, &mut pending, vec![Err("join failed".to_string())]).unwrap();
    assert!(pending.is_empty());
    assert_eq!(report.issues[0].path, "C:\\VST3");
    assert_eq!(
        report.issues[0].message,
        "A scanner supervisor task failed: join failed. The UI, audio engine, and session data are unaffected."
    );
}

fn stored(name: &str, state: &str) -> StoredPlugin<String> {
    StoredPlugin { name: name.to_string(), path: format!("C:\\VST3\\{name}.vst3"), scan_state: state.to_string() }
}

#[test]
fn resolves_only_validated_catalog_plugins() {
    let entries = vec![(stored("Other", "validated"), false), (stored("Amp", "validated"), true)];
    let (name, path) = choose_validated_plugin(entries, "C:\\VST3\\Amp.vst3").unwrap();
    assert_eq!(name, "Amp");
    assert_eq!(path, "C:\\VST3\\Amp.vst3");
}

#[test]
fn rejects_non_validated_catalog_plugins() {
    let entries = vec![(stored("Amp", "quarantined"), true)];
    let error = choose_validated_plugin(entries, "C:\\VST3\\Amp.vst3").unwrap_err();
    assert!(error.contains("not validated"));
    assert_eq!(error, "The requested VST3 is not validated (state: quarantined): C:\\VST3\\Amp.vst3");
    let error = choose_validated_plugin(vec![(stored("Amp", "validated"), false)], "D:\\Amp.vst3").unwrap_err();
    assert_eq!(error, "The requested VST3 is not present in the current plugin catalog: D:\\Amp.vst3");
}
