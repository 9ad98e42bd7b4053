use riffra::asset::{mint_asset_id, AssetId};
use riffra::library::{
    check_metadata_id, database_path, normalize_metadata, plan_relocation, recording_asset_id, recording_key, recording_row_ids,
    search_pattern, sync_plugins, sync_session, Relocation, SessionSummary,
};
use riffra::plugins::{
    classify_entry, discover, epoch_ms, fnv1a, is_vst3, is_vst3_extension, issue, PluginWalk, MAX_ENTRIES, over_entry_limit, plugin_entry, plugin_id, sort_plugins,
    vendor_of, EntryAction, PluginEntry,
};
use riffra::projects::{
    check_manifest_version, export_folder_name, import_decision, import_file_name, package_name, referenced_asset_ids,
    resolve_packaged_path, safe_name, ExistingAsset, ImportAction,
};

#[test]
fn indexes_session_as_a_project_row() {
    let session = SessionSummary { session_id: "s1".into(), project_name: None, note: String::new(), updated_at_ms: 5 };
    let row = sync_session("root", &session);
    assert_eq!(row.id, "project:s1");
    assert_eq!(row.name, "Untitled Scratch");
    assert_eq!(row.kind, "project");
    assert!(row.path.as_deref().unwrap().starts_with("root"));
    assert!(row.path.as_deref().unwrap().ends_with("scratch/current.json"));
    assert_eq!(row.note, None);
    assert_eq!(row.updated_at_ms, Some(5));
    assert_eq!(row.stability, "saved");
}

#[test]
fn recording_ids_gain_their_prefix_once() {
    assert_eq!(recording_asset_id("C:\\take"), "recording:C:\\take");
    assert_eq!(recording_asset_id("recording:C:\\take"), "recording:C:\\take");
    assert_eq!(recording_key("recording:abc"), "abc");
    assert_eq!(recording_key("abc"), "abc");
    let (recording, midi) = recording_row_ids("recording:abc");
    assert_eq!(recording, "recording:abc");
    assert_eq!(midi, "midi:abc");
}

#[test]
fn metadata_is_trimmed_cut_and_cleared_when_blank() {
    assert_eq!(normalize_metadata(Some("  idea, guitar ".into()), 128), Some("idea, guitar".into()));
    assert_eq!(normalize_metadata(Some("   ".into()), 128), None);
    assert_eq!(normalize_metadata(None, 128), None);
    let long = "x".repeat(200);
    assert_eq!(normalize_metadata(Some(long), 128).unwrap().chars().count(), 128);
    assert!(check_metadata_id("  ").is_err());
    assert!(check_metadata_id(&"a".repeat(513)).is_err());
    assert!(check_metadata_id("asset:1").is_ok());
}

#[test]
fn search_patterns_escape_wildcards() {
    assert_eq!(search_pattern("  50%_off "), Some("%50\\%\\_off%".into()));
    assert_eq!(search_pattern("   "), None);
}

#[test]
fn relocation_moves_the_row_to_the_new_key() {
    match plan_relocation("recording:/inbox/a", "recording:/archive/a").unwrap() {
        Relocation::Move { old_row_id, new_row_id, new_name } => {
            assert_eq!(old_row_id, "recording:/inbox/a");
            assert_eq!(new_row_id, "recording:/archive/a");
            assert_eq!(new_name, "a");
        }
        Relocation::Unchanged => panic!("expected a move"),
    }
    assert!(matches!(plan_relocation("recording:/a", "/a").unwrap(), Relocation::Unchanged));
    assert!(database_path("root").ends_with("riffra.db"));
}

fn entry(name: &str) -> PluginEntry {
    let mut entry = plugin_entry("root", &format!("root/Vendor/{name}.vst3"), false, Some(3));
    entry.name = name.into();
    entry
}

#[test]
fn detects_file_and_bundle_plugins_without_entering_bundles() {
    assert!(is_vst3_extension(Some("vst3".into())));
    assert!(is_vst3_extension(Some("VST3".into())));
    assert!(!is_vst3_extension(Some("dll".into())));
    assert!(!is_vst3_extension(None));
    assert_eq!(classify_entry(true, true, false), EntryAction::Plugin { bundle: true });
    assert_eq!(classify_entry(true, false, false), EntryAction::Plugin { bundle: false });
    assert_eq!(classify_entry(false, true, false), EntryAction::Descend);
    assert_eq!(classify_entry(false, true, true), EntryAction::Skip);
    assert!(!over_entry_limit(100_000));
    assert!(over_entry_limit(100_001));
}

#[test]
fn plugin_entries_are_named_and_identified_by_path() {
    let plugin = plugin_entry("root", "root/Vendor/Amp.vst3", true, Some(9));
    assert_eq!(plugin.name, "Amp");
    assert_eq!(plugin.vendor.as_deref(), Some("Vendor"));
    assert_eq!(plugin.format, "VST3");
    assert_eq!(plugin.scan_state, "discovered");
    assert!(plugin.bundle);
    assert_eq!(plugin.id, plugin_id("ROOT/vendor/amp.VST3"));
    assert_eq!(plugin.id, format!("vst3-{:016x}", fnv1a("root/vendor/amp.vst3".as_bytes())));
    let loose = plugin_entry("root", "root/Loose.vst3", false, None);
    assert_eq!(loose.vendor, None);
    assert_eq!(vendor_of(false, Some("VST3".into())), None);
    assert_eq!(vendor_of(false, Some("Acme".into())), Some("Acme".into()));
}

#[test]
fn fnv1a_matches_the_reference_values() {
    assert_eq!(fnv1a(b""), 0xcbf29ce484222325);
    assert_eq!(fnv1a(b"a"), 0xaf63dc4c8601ec8c);
    assert_eq!(fnv1a(b"foobar"), 0x85944171f73967e8);
}

#[test]
fn plugins_are_sorted_by_name_ignoring_case() {
    let sorted = sort_plugins(vec![entry("zeta"), entry("Alpha"), entry("beta")]);
    let names: Vec<&str> = sorted.iter().map(|plugin| plugin.name.as_str()).collect();
    assert_eq!(names, vec!["Alpha", "beta", "zeta"]);
    let rows = sync_plugins(&sorted);
    assert_eq!(rows[0].id, format!("plugin:{}", sorted[0].id));
    assert_eq!(rows[0].tag.as_deref(), Some("Vendor"));
    assert_eq!(rows[0].stability, "discovered");
}

#[test]
fn a_failed_scan_reports_the_failure_as_an_issue() {
    let report = discover("C:\\VST3", 5, Err("cancelled".into()), 77);
    assert!(report.plugins.is_empty());
    assert_eq!(report.issues.len(), 1);
    assert_eq!(report.issues[0].path, "C:\\VST3");
    assert_eq!(report.issues[0].message, "cancelled");
    assert_eq!(report.started_at_ms, 77);
    assert_eq!(issue("p", "m".into()).path, "p");
    assert_eq!(epoch_ms(None), 0);
    assert_eq!(epoch_ms(Some(12)), 12);
    assert_eq!(epoch_ms(Some(u128::MAX)), u64::MAX);
}

#[test]
fn referenced_assets_are_listed_once_in_first_use_order() {
    let a = mint_asset_id();
    let b = mint_asset_id();
    let c = mint_asset_id();
    let ids = referenced_asset_ids(&vec![a.clone(), b.clone(), a.clone()], &vec![c.clone(), b.clone()]);
    let expected: Vec<AssetId> = vec![a, b, c];
    assert_eq!(ids, expected);
}

#[test]
fn safe_names_keep_plain_characters() {
    assert_eq!(safe_name("My Song #1"), "My-Song-1");
    assert_eq!(safe_name("???"), "scratch");
    assert_eq!(safe_name(&"a".repeat(100)).len(), 80);
    assert_eq!(export_folder_name(None, 42), "scratch-42");
    assert_eq!(export_folder_name(Some("Clean Session"), 7), "Clean-Session-7");
}

#[test]
fn exports_versioned_session_manifest_without_path_traversal() {
    assert!(resolve_packaged_path("pkg", "assets/1-take").is_ok());
    assert!(resolve_packaged_path("pkg", "../outside").is_err());
    assert!(resolve_packaged_path("pkg", "/etc/passwd").is_err());
    assert!(check_manifest_version(2).is_ok());
    assert_eq!(check_manifest_version(1).unwrap_err(), "Unsupported project manifest version 1.");
    let (base, path) = package_name(0, Some("take".into()));
    assert_eq!(base, "take");
    assert_eq!(path, "assets/1-take");
    let (base, path) = package_name(2, Some("???".into()));
    assert_eq!(base, "asset-3");
    assert_eq!(path, "assets/3-asset-3");
}

#[test]
fn import_refuses_to_overwrite_same_id_with_different_content() {
    assert_eq!(import_decision("asset:x", true, false, 1, ExistingAsset::Absent).unwrap(), ImportAction::Skip);
    assert_eq!(import_decision("asset:x", true, true, 1, ExistingAsset::Absent).unwrap(), ImportAction::Copy);
    assert_eq!(import_decision("asset:x", true, true, 1, ExistingAsset::FileGone).unwrap(), ImportAction::Restore);
    assert_eq!(import_decision("asset:x", true, true, 1, ExistingAsset::Present(Ok(1))).unwrap(), ImportAction::Keep);
    assert_eq!(
        import_decision("asset:x", true, true, 1, ExistingAsset::Present(Ok(2))).unwrap_err(),
        "Asset asset:x already exists with different content; refusing to overwrite."
    );
    assert!(import_decision("C:\\legacy.wav", false, true, 1, ExistingAsset::Absent).unwrap_err().contains("non-canonical AssetId"));
    assert_eq!(import_file_name("My Take", 9, None), "My-Take-9.wav");
    assert_eq!(import_file_name("x", 9, Some("aif")), "x-9.aif");
}

#[test]
fn a_plugin_is_recognised_by_its_vst3_extension_in_any_case() {
    assert!(is_vst3("Amp.vst3"));
    assert!(is_vst3("vendor/Amp.VST3"));
    assert!(!is_vst3("vendor/Amp.dll"));
    assert!(!is_vst3("vendor/.vst3"));
    assert!(!is_vst3("vst3"));
}

#[test]
fn a_packaged_path_is_joined_under_the_package_folder() {
    let resolved = resolve_packaged_path("pkg", "assets/take.wav").unwrap();
    assert!(resolved.starts_with("pkg"));
    assert!(resolved.ends_with("assets/take.wav"));
}

#[test]
fn a_walk_finds_file_and_bundle_plugins_without_entering_bundles() {
    let mut walk = PluginWalk::new("root");
    assert_eq!(walk.next_folder().as_deref(), Some("root"));
    assert!(walk.enter("root"));
    assert!(walk.count_entry("root"));
    walk.place_entry("root/Vendor", false, true, false, None);
    assert!(walk.count_entry("root"));
    walk.place_entry("root/Loose.vst3", true, false, false, Some(5));
    assert!(walk.count_entry("root"));
    walk.place_entry("root/readme.txt", false, false, false, None);
    assert_eq!(walk.next_folder().as_deref(), Some("root/Vendor"));
    assert!(walk.enter("root/Vendor"));
    assert!(!walk.enter("root/Vendor"));
    assert!(walk.count_entry("root"));
    walk.place_entry("root/Vendor/Amp.vst3", true, true, false, None);
    assert!(walk.next_folder().is_none());
    let report = discover("root", 1, Ok(walk), 2);
    assert_eq!(report.root, "root");
    assert_eq!((report.started_at_ms, report.finished_at_ms), (1, 2));
    let names: Vec<&str> = report.plugins.iter().map(|plugin| plugin.name.as_str()).collect();
    assert_eq!(names, vec!["Amp", "Loose"]);
    assert!(report.plugins[0].bundle);
    assert_eq!(report.plugins[0].vendor.as_deref(), Some("Vendor"));
    assert!(!report.plugins[1].bundle);
    assert_eq!(report.plugins[1].vendor, None);
    assert_eq!(report.plugins[1].modified_at_ms, Some(5));
    assert!(report.issues.is_empty());
}

#[test]
fn a_walk_stops_at_the_entry_limit() {
    let mut walk = PluginWalk::new("root");
    walk.entries_seen = MAX_ENTRIES;
    assert!(!walk.count_entry("root"));
    assert!(walk.next_folder().is_none());
    assert_eq!(walk.issues[0].path, "root");
    assert_eq!(walk.issues[0].message, "Scan stopped at the 100,000-entry safety limit.");
    assert!(walk.cancel_check_due() == (walk.entries_seen % 128 == 0));
}
