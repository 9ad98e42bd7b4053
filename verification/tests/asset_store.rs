use riffra::asset::{AssetId, AssetKind, ProvenanceOperation};
use riffra::asset_store::{
    asset_from_row, check_registration, plan_location_rewrite, provenance_columns, provenance_from_row, AssetRow,
};

const ID: &str = "asset:01890a5d-ac96-774b-bcce-b302099a8057";
const SOURCE: &str = "asset:01890a5d-ac96-7000-8000-000000000001";

fn id() -> AssetId {
    AssetId::from_normalized(ID.to_string()).unwrap()
}

#[test]
fn registration_rejects_blank_names_missing_files_and_conflicts() {
    let id = id();
    assert_eq!(
        check_registration(&id, AssetKind::Audio, "  ", "take.wav", true, None).unwrap_err(),
        "Asset name must not be empty."
    );
    assert_eq!(
        check_registration(&id, AssetKind::Audio, "Take", " ", true, None).unwrap_err(),
        "Asset content location must not be empty."
    );
    assert_eq!(
        check_registration(&id, AssetKind::Audio, "Take", "take.wav", false, None).unwrap_err(),
        "Asset content file does not exist: take.wav"
    );
    assert_eq!(
        check_registration(&id, AssetKind::Audio, "Take", "take.wav", true, Some((AssetKind::Midi, true))).unwrap_err(),
        format!("Asset id conflict: {ID} already refers to different production content.")
    );
    assert!(check_registration(&id, AssetKind::Audio, "Take", "take.wav", true, Some((AssetKind::Audio, false))).is_err());
    assert!(check_registration(&id, AssetKind::Audio, "Take", "take.wav", true, Some((AssetKind::Audio, true))).is_ok());
    assert!(check_registration(&id, AssetKind::Audio, "Take", "take.wav", true, None).is_ok());
}

fn row() -> AssetRow {
    AssetRow {
        id: ID.to_string(),
        asset_kind: Some("audio".to_string()),
        name: "Take".to_string(),
        content_location: "C:\\Takes\\take.wav".to_string(),
        created_at_ms: Some(5),
        updated_at_ms: Some(-1),
        tag: Some("drums".to_string()),
        note: None,
        favorite: Some(1),
        provenance_operation: Some("processed".to_string()),
        provenance_parameters: Some("{\"gainDb\":-3}".to_string()),
    }
}

#[test]
fn rows_read_back_as_assets_with_their_provenance() {
    let asset = asset_from_row(row(), Some(vec![SOURCE.to_string(), "not-an-id".to_string()])).unwrap();
    assert_eq!(asset.id.as_str(), ID);
    assert!(matches!(asset.kind, AssetKind::Audio));
    assert_eq!(asset.created_at_ms, 5);
    assert_eq!(asset.updated_at_ms, 0);
    assert!(asset.favorite);
    assert_eq!(asset.tag.as_deref(), Some("drums"));
    let provenance = asset.provenance.unwrap();
    assert!(matches!(provenance.operation, ProvenanceOperation::Processed));
    assert_eq!(provenance.source_asset_ids.len(), 1);
    assert_eq!(provenance.source_asset_ids[0].as_str(), SOURCE);
    assert_eq!(provenance.parameters.get("gainDb").and_then(|v| v.as_i64()), Some(-3));
}

#[test]
fn rows_without_a_known_kind_or_a_valid_id_are_not_assets() {
    let mut unknown = row();
    unknown.asset_kind = Some("video".to_string());
    assert!(asset_from_row(unknown, Some(vec![])).is_none());
    let mut bad_id = row();
    bad_id.id = "take-1".to_string();
    assert!(asset_from_row(bad_id, Some(vec![])).is_none());
}

#[test]
fn provenance_needs_a_known_operation_and_readable_relations() {
    assert!(provenance_from_row(None, None, Some(vec![])).is_none());
    assert!(provenance_from_row(Some("mixed".to_string()), None, Some(vec![])).is_none());
    assert!(provenance_from_row(Some("recorded".to_string()), None, None).is_none());
    let provenance = provenance_from_row(Some("recorded".to_string()), Some("[1]".to_string()), Some(vec![])).unwrap();
    assert!(provenance.parameters.is_empty());
    assert!(provenance.source_asset_ids.is_empty());
}

#[test]
fn provenance_is_stored_as_operation_and_json_parameters() {
    let provenance = provenance_from_row(Some("rendered".to_string()), Some("{\"bars\":4}".to_string()), Some(vec![])).unwrap();
    let (operation, parameters) = provenance_columns(&Some(provenance)).unwrap();
    assert_eq!(operation, Some("rendered"));
    assert_eq!(parameters.as_deref(), Some("{\"bars\":4}"));
    let (operation, parameters) = provenance_columns(&None).unwrap();
    assert_eq!(operation, None);
    assert_eq!(parameters, None);
}

#[test]
fn moved_folders_rewrite_locations_without_trailing_separators() {
    let rewrite = plan_location_rewrite("C:\\Inbox\\take-1\\", "D:/Archive/take-1/").unwrap();
    assert_eq!(rewrite.old_prefix, "C:\\Inbox\\take-1");
    assert_eq!(rewrite.new_prefix, "D:/Archive/take-1");
    assert_eq!(rewrite.backslash_pattern, "C:\\Inbox\\take-1\\\\%");
    assert_eq!(rewrite.slash_pattern, "C:\\Inbox\\take-1/%");
    assert!(plan_location_rewrite(" ", "D:/Archive").is_none());
    assert!(plan_location_rewrite("C:/Inbox", "").is_none());
}
