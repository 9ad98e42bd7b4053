use riffra::asset::{
    empty_parameters, kind_from_db, kind_to_db, mint_asset_id, operation_from_db, operation_to_db, u64_from_i64, Asset, AssetId,
    AssetKind, Provenance, ProvenanceOperation,
};
use riffra::errors::DomainError;

fn register(name: &str, location: &str, provenance: Option<Provenance>, now: u64) -> Asset {
    Asset::register(AssetKind::Audio, name.into(), location.into(), provenance, now)
}

#[test]
fn newly_registered_asset_receives_a_fresh_unique_id() {
    let a = register("take-1", "C:\\data\\take-1.wav", Some(Provenance::recorded_root()), 1_000);
    let b = register("take-2", "C:\\data\\take-2.wav", Some(Provenance::recorded_root()), 1_000);
    assert_ne!(a.id, b.id);
    assert!(a.id.as_str().starts_with("asset:"));
    let uuid = uuid::Uuid::parse_str(a.id.as_str().strip_prefix("asset:").unwrap()).unwrap();
    assert_eq!(uuid.get_version_num(), 7);
}

#[test]
fn deriving_new_content_mints_a_new_id_instead_of_reusing() {
    let source = register("raw", "C:\\data\\raw.wav", Some(Provenance::recorded_root()), 1_000);
    let processed = Asset::derive(
        &vec![source.clone()],
        AssetKind::Audio,
        "processed".into(),
        "C:\\data\\processed.wav".into(),
        ProvenanceOperation::Processed,
        empty_parameters(),
        2_000,
    )
    .unwrap();
    assert_ne!(source.id, processed.id);
    let sources = processed.provenance.as_ref().unwrap().source_asset_ids();
    assert_eq!(sources.len(), 1);
    assert_eq!(sources[0], source.id);
}

#[test]
fn metadata_update_preserves_asset_id() {
    let asset = register("take", "C:\\data\\take.wav", None, 1_000);
    let id = asset.id.clone();
    let updated = asset.update_metadata(Some("renamed".into()), Some(Some("idea".into())), Some(Some("note".into())), Some(true), 2_000);
    assert_eq!(updated.id, id);
    assert!(updated.id.as_str().starts_with("asset:"));
    assert_eq!(updated.name, "renamed");
    assert_eq!(updated.tag.as_deref(), Some("idea"));
    assert_eq!(updated.note.as_deref(), Some("note"));
    assert!(updated.favorite);
    assert_eq!(updated.updated_at_ms, 2_000);
}

#[test]
fn provenance_exposes_source_asset_ids() {
    let a = register("a", "C:\\a.wav", Some(Provenance::recorded_root()), 1_000);
    let b = register("b", "C:\\b.wav", Some(Provenance::recorded_root()), 1_000);
    let render = Asset::derive(
        &vec![a.clone(), b.clone()],
        AssetKind::Audio,
        "render".into(),
        "C:\\render.wav".into(),
        ProvenanceOperation::Rendered,
        empty_parameters(),
        3_000,
    )
    .unwrap();
    let sources = render.provenance.as_ref().unwrap().source_asset_ids();
    assert!(sources.contains(&a.id));
    assert!(sources.contains(&b.id));
}

#[test]
fn source_required_operations_reject_empty_sources() {
    let error = Asset::derive(
        &Vec::new(),
        AssetKind::Audio,
        "orphan".into(),
        "C:\\orphan.wav".into(),
        ProvenanceOperation::Sampled,
        empty_parameters(),
        1_000,
    )
    .unwrap_err();
    assert!(matches!(error, DomainError::InvalidProvenance(_)));
}

#[test]
fn asset_id_accepts_only_uuidv7() {
    assert!(AssetId::from_normalized("".into()).is_err());
    assert!(AssetId::from_normalized("C:\\path.wav".into()).is_err());
    assert!(AssetId::from_normalized("asset:1-0".into()).is_err());
    assert!(AssetId::from_normalized("asset:not-a-uuid".into()).is_err());
    assert!(AssetId::from_normalized("asset:01890aef-3d2c-4b4e-8f1a-2b3c4d5e6f70".into()).is_err());
    assert!(AssetId::from_normalized(format!("asset:{}", uuid::Uuid::now_v7())).is_ok());
}

#[test]
fn imported_provenance_has_no_source_and_is_imported() {
    let provenance = Provenance::imported();
    assert!(provenance.source_asset_ids.is_empty());
    assert_eq!(provenance.operation, ProvenanceOperation::Imported);
}

#[test]
fn asset_id_errors_name_the_problem() {
    match AssetId::from_normalized("C:\\path.wav".into()).unwrap_err() {
        DomainError::InvalidAssetId(message) => assert!(message.contains("missing the canonical asset: prefix")),
        other => panic!("unexpected error {other:?}"),
    }
    match AssetId::from_normalized("asset:01890aef-3d2c-4b4e-8f1a-2b3c4d5e6f70".into()).unwrap_err() {
        DomainError::InvalidAssetId(message) => assert!(message.ends_with("must be a UUIDv7, found version 4.")),
        other => panic!("unexpected error {other:?}"),
    }
}

#[test]
fn minted_ids_are_accepted_back() {
    let id = mint_asset_id();
    let parsed = AssetId::from_normalized(id.as_str().to_string()).unwrap();
    assert_eq!(parsed, id);
}

#[test]
fn database_spellings_round_trip() {
    for kind in [AssetKind::Audio, AssetKind::Midi, AssetKind::Sample, AssetKind::RackDefinition, AssetKind::GenerationDefinition] {
        assert_eq!(kind_from_db(kind_to_db(kind)), Some(kind));
    }
    assert_eq!(kind_to_db(AssetKind::RackDefinition), "rackDefinition");
    assert_eq!(kind_from_db("video"), None);
    for operation in [ProvenanceOperation::Recorded, ProvenanceOperation::Processed, ProvenanceOperation::Imported] {
        assert_eq!(operation_from_db(operation_to_db(operation)), Some(operation));
    }
    assert_eq!(u64_from_i64(-1), None);
    assert_eq!(u64_from_i64(42), Some(42));
}
