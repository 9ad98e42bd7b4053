//! Canonical production material: identity, kinds, provenance and the
//! stored (database) spellings of kinds and operations.
//!
//! Every produced asset receives a fresh `asset:<UUIDv7>` id; production
//! content is immutable, so deriving new content mints a new asset and only
//! management metadata (name, tag, note, favorite) changes for a kept id.

use vstd::prelude::*;
use crate::errors::DomainError;
use crate::text::{concat2, concat3, opt_view, starts_with, strip_prefix_or_self, to_string, trim_chars, trim_spec, leading_ws, trailing_ws, u64_to_decimal, append_str, decimal, str_eq};

verus! {

broadcast use vstd::string::group_string_axioms;

#[verifier::external_type_specification]
#[verifier::external_body]
#[verifier::reject_recursive_types(K)]
#[verifier::reject_recursive_types(V)]
pub struct ExJsonMap<K, V>(serde_json::Map<K, V>);

#[verifier::external_type_specification]
#[verifier::external_body]
pub struct ExJsonValue(serde_json::Value);

/// The outcome of parsing text as a UUID: its version number, or the parser's
/// error text.
pub uninterp spec fn uuid_parse(text: Seq<char>) -> Result<usize, Seq<char>>;

/// Parses `text` as a UUID (`uuid::Uuid::parse_str`) and reports its version
/// number (`get_version_num`), or the parser's error text.
#[verifier::external_body]
fn parse_uuid_version(text: &str) -> (r: Result<usize, String>)
    ensures
        match r {
            Ok(v) => uuid_parse(text@) == Ok::<usize, Seq<char>>(v),
            Err(e) => uuid_parse(text@) == Err::<usize, Seq<char>>(e@),
        },
{
    match uuid::Uuid::parse_str(text) {
        Ok(u) => Ok(u.get_version_num()),
        Err(e) => Err(e.to_string()),
    }
}

/// Whether `c` is a lower-case hexadecimal digit.
pub open spec fn is_lower_hex(c: char) -> bool {
    ('0' <= c && c <= '9') || ('a' <= c && c <= 'f')
}

/// The hyphenated lower-case text form of a version-7 UUID: 36 characters,
/// hyphens at 8, 13, 18 and 23, hexadecimal digits elsewhere, and the version
/// digit `7` at position 14.
pub open spec fn is_v7_uuid_text(t: Seq<char>) -> bool {
    &&& t.len() == 36
    &&& forall|i: int| 0 <= i < 36 ==> (if i == 8 || i == 13 || i == 18 || i == 23 {
        #[trigger] t[i] == '-'
    } else {
        is_lower_hex(t[i])
    })
    &&& t[14] == '7'
}

/// A fresh version-7 UUID in its hyphenated text form
/// (`uuid::Uuid::now_v7().to_string()`). The value depends on the clock and
/// on randomness; what holds of every outcome is its shape.
#[verifier::external_body]
fn new_uuid_v7_text() -> (fresh: String)
    ensures
        is_v7_uuid_text(fresh@),
        match uuid_parse(fresh@) {
            Ok(v) => v == 7,
            Err(_) => false,
        },
{
    uuid::Uuid::now_v7().to_string()
}

/// The canonical asset-id prefix.
pub open spec fn asset_prefix() -> Seq<char> {
    "asset:"@
}

/// Validation of asset-id text: non-blank, `asset:` prefix, and a UUID of
/// version 7 after it. Errors carry the message text.
pub open spec fn asset_id_check(value: Seq<char>) -> Result<(), Seq<char>> {
    if trim_spec(value).len() == 0 {
        Err("Asset id must not be empty."@)
    } else if !asset_prefix().is_prefix_of(value) {
        Err("Asset id '"@ + value + "' is missing the canonical asset: prefix."@)
    } else {
        match uuid_parse(value.skip(6)) {
            Err(e) => Err("Asset id '"@ + value + "' is not a valid UUID: "@ + e),
            Ok(v) => if v != 7 {
                Err("Asset id '"@ + value + "' must be a UUIDv7, found version "@ + decimal(v as nat) + "."@)
            } else {
                Ok(())
            },
        }
    }
}

/// Stable, globally-unique identifier of an asset; the only valid form is
/// `asset:<UUIDv7>`.
#[derive(Clone, Debug, Hash, PartialEq, Eq, PartialOrd, Ord)]
pub struct AssetId(String);

impl View for AssetId {
    type V = Seq<char>;

    closed spec fn view(&self) -> Seq<char> {
        self.0@
    }
}

impl AssetId {
    /// Accepts exactly `asset:` followed by a version-7 UUID.
    pub fn from_normalized(value: String) -> (r: Result<AssetId, DomainError>)
        ensures
            match asset_id_check(value@) {
                Ok(_) => r matches Ok(id) && id@ == value@,
                Err(m) => r matches Err(DomainError::InvalidAssetId(e)) && e@ == m,
            },
    {
        let trimmed = trim_chars(value.as_str());
        if trimmed.len() == 0 {
            return Err(DomainError::InvalidAssetId(to_string("Asset id must not be empty.")));
        }
        if !starts_with(value.as_str(), "asset:") {
            let mut m = concat3("Asset id '", value.as_str(), "' is missing the canonical asset: prefix.");
            return Err(DomainError::InvalidAssetId(m));
        }
        proof {
            reveal_strlit("asset:");
        }
        let raw = strip_prefix_or_self(value.as_str(), "asset:");
        match parse_uuid_version(raw.as_str()) {
            Err(e) => {
                let mut m = concat3("Asset id '", value.as_str(), "' is not a valid UUID: ");
                append_str(&mut m, e.as_str());
                Err(DomainError::InvalidAssetId(m))
            },
            Ok(v) => if v != 7 {
                let mut m = concat3("Asset id '", value.as_str(), "' must be a UUIDv7, found version ");
                let n = u64_to_decimal(v as u64);
                append_str(&mut m, n.as_str());
                append_str(&mut m, ".");
                Err(DomainError::InvalidAssetId(m))
            } else {
                Ok(AssetId(value))
            },
        }
    }

    /// The id text.
    pub fn as_str(&self) -> (s: &str)
        ensures
            s@ == self@,
    {
        self.0.as_str()
    }

    /// Whether two ids are the same.
    pub fn same_as(&self, other: &AssetId) -> (r: bool)
        ensures
            r == (self@ == other@),
    {
        str_eq(self.0.as_str(), other.0.as_str())
    }

    /// A copy of this id.
    pub fn copy_id(&self) -> (r: AssetId)
        ensures
            r@ == self@,
    {
        AssetId(self.0.clone())
    }
}

/// Mints a new globally-unique asset id (`asset:` and a UUIDv7).
pub fn mint_asset_id() -> (id: AssetId)
    ensures
        is_minted_id(id@),
        asset_id_check(id@) is Ok,
{
    let u = new_uuid_v7_text();
    let text = concat2("asset:", u.as_str());
    proof {
        reveal_strlit("asset:");
        assert(text@.skip(6) =~= u@);
        assert(text@[0] == 'a');
        assert(leading_ws(text@) == 0);
        assert(text@.skip(0) =~= text@);
        assert(text@[text@.len() - 1] == u@[35]);
        assert(trailing_ws(text@) == 0);
        assert(trim_spec(text@) =~= text@);
    }
    AssetId(text)
}

/// The shape of a minted id: `asset:` followed by version-7 UUID text.
pub open spec fn is_minted_id(id: Seq<char>) -> bool {
    asset_prefix().is_prefix_of(id) && is_v7_uuid_text(id.skip(6))
}

/// Kinds of production material.
#[derive(Clone, Copy, Debug, PartialEq, Eq, Hash, Structural)]
pub enum AssetKind {
    Audio,
    Midi,
    Sample,
    RackDefinition,
    GenerationDefinition,
}

/// The operation that produced an asset.
#[derive(Clone, Copy, Debug, PartialEq, Eq, Hash, Structural)]
pub enum ProvenanceOperation {
    Recorded,
    Processed,
    Sampled,
    Separated,
    Rendered,
    Generated,
    Imported,
}

/// Operations that consume at least one source asset.
pub open spec fn requires_source(op: ProvenanceOperation) -> bool {
    match op {
        ProvenanceOperation::Processed | ProvenanceOperation::Sampled | ProvenanceOperation::Separated
        | ProvenanceOperation::Rendered | ProvenanceOperation::Generated => true,
        _ => false,
    }
}

/// How an asset was produced.
#[derive(Clone, Debug, PartialEq)]
pub struct Provenance {
    pub source_asset_ids: Vec<AssetId>,
    pub operation: ProvenanceOperation,
    pub parameters: serde_json::Map<String, serde_json::Value>,
}

/// The keys of a provenance parameter map.
pub uninterp spec fn parameter_keys(m: serde_json::Map<String, serde_json::Value>) -> Set<Seq<char>>;

/// `Clone` of a provenance parameter map (`serde_json::Map::clone`): the
/// copy has the same keys. The values are copied too, but this crate never
/// inspects them, so nothing is stated of them.
pub assume_specification[ <serde_json::Map<String, serde_json::Value> as Clone>::clone ](m: &serde_json::Map<String, serde_json::Value>) -> (copy: serde_json::Map<String, serde_json::Value>)
    ensures
        parameter_keys(copy) == parameter_keys(*m),
;

/// Creates an empty provenance parameter map (`serde_json::Map::new`): it
/// has no keys.
#[verifier::external_body]
pub fn empty_parameters() -> (m: serde_json::Map<String, serde_json::Value>)
    ensures
        parameter_keys(m) == Set::<Seq<char>>::empty(),
{
    serde_json::Map::new()
}

impl Provenance {
    /// Provenance of an imported asset: no sources, empty parameters.
    pub fn imported() -> (p: Provenance)
        ensures
            p.source_asset_ids@.len() == 0,
            p.operation == ProvenanceOperation::Imported,
            parameter_keys(p.parameters) == Set::<Seq<char>>::empty(),
    {
        Provenance { source_asset_ids: Vec::new(), operation: ProvenanceOperation::Imported, parameters: empty_parameters() }
    }

    /// Provenance of a root recording: no sources, empty parameters.
    pub fn recorded_root() -> (p: Provenance)
        ensures
            p.source_asset_ids@.len() == 0,
            p.operation == ProvenanceOperation::Recorded,
            parameter_keys(p.parameters) == Set::<Seq<char>>::empty(),
    {
        Provenance { source_asset_ids: Vec::new(), operation: ProvenanceOperation::Recorded, parameters: empty_parameters() }
    }

    /// The ids of the assets this one was produced from.
    pub fn source_asset_ids(&self) -> (ids: &Vec<AssetId>)
        ensures
            ids == &self.source_asset_ids,
    {
        &self.source_asset_ids
    }
}

/// Canonical production material.
#[derive(Clone, Debug, PartialEq)]
pub struct Asset {
    pub id: AssetId,
    pub kind: AssetKind,
    pub name: String,
    pub content_location: String,
    pub created_at_ms: u64,
    pub updated_at_ms: u64,
    pub provenance: Option<Provenance>,
    pub tag: Option<String>,
    pub note: Option<String>,
    pub favorite: bool,
}

impl Asset {
    /// Registers a brand-new asset with a freshly minted id.
    pub fn register(
        kind: AssetKind,
        name: String,
        content_location: String,
        provenance: Option<Provenance>,
        now_ms: u64,
    ) -> (a: Asset)
        ensures
            is_minted_id(a.id@),
            a.kind == kind,
            a.name == name,
            a.content_location == content_location,
            a.created_at_ms == now_ms,
            a.updated_at_ms == now_ms,
            a.provenance == provenance,
            a.tag is None,
            a.note is None,
            !a.favorite,
    {
        Asset {
            id: mint_asset_id(),
            kind,
            name,
            content_location,
            created_at_ms: now_ms,
            updated_at_ms: now_ms,
            provenance,
            tag: None,
            note: None,
            favorite: false,
        }
    }

    /// Produces a new asset derived from `sources` with a fresh id; the
    /// sources are unchanged. Operations that consume sources reject an
    /// empty source list.
    pub fn derive(
        sources: &Vec<Asset>,
        kind: AssetKind,
        name: String,
        content_location: String,
        operation: ProvenanceOperation,
        parameters: serde_json::Map<String, serde_json::Value>,
        now_ms: u64,
    ) -> (r: Result<Asset, DomainError>)
        ensures
            requires_source(operation) && sources@.len() == 0 ==> (r matches Err(DomainError::InvalidProvenance(m))
                && m@ == "Operation "@ + operation_debug_name(operation) + " requires at least one source asset."@),
            !(requires_source(operation) && sources@.len() == 0) ==> (r matches Ok(a) && {
                &&& is_minted_id(a.id@)
                &&& a.kind == kind
                &&& a.name == name
                &&& a.content_location == content_location
                &&& a.created_at_ms == now_ms
                &&& a.updated_at_ms == now_ms
                &&& a.provenance is Some
                &&& a.provenance->0.operation == operation
                &&& a.provenance->0.parameters == parameters
                &&& a.provenance->0.source_asset_ids@.len() == sources@.len()
                &&& forall|i: int| 0 <= i < sources@.len() ==> (#[trigger] a.provenance->0.source_asset_ids@[i])@ == sources@[i].id@
                &&& a.tag is None && a.note is None && !a.favorite
            }),
    {
        let needs = match operation {
            ProvenanceOperation::Processed | ProvenanceOperation::Sampled | ProvenanceOperation::Separated
            | ProvenanceOperation::Rendered | ProvenanceOperation::Generated => true,
            _ => false,
        };
        if needs && sources.len() == 0 {
            let op = operation_debug_text(operation);
            return Err(DomainError::InvalidProvenance(concat3("Operation ", op, " requires at least one source asset.")));
        }
        let mut ids: Vec<AssetId> = Vec::new();
        let mut i: usize = 0;
        while i < sources.len()
            invariant
                i <= sources@.len(),
                ids@.len() == i,
                forall|k: int| 0 <= k < i ==> (#[trigger] ids@[k])@ == sources@[k].id@,
            decreases sources@.len() - i,
        {
            ids.push(sources[i].id.copy_id());
            i += 1;
        }
        let provenance = Provenance { source_asset_ids: ids, operation, parameters };
        Ok(Self::register(kind, name, content_location, Some(provenance), now_ms))
    }

    /// Updates management metadata only; id, kind, content and provenance
    /// are preserved.
    pub fn update_metadata(
        self,
        name: Option<String>,
        tag: Option<Option<String>>,
        note: Option<Option<String>>,
        favorite: Option<bool>,
        now_ms: u64,
    ) -> (a: Asset)
        ensures
            a.id == self.id,
            a.kind == self.kind,
            a.content_location == self.content_location,
            a.provenance == self.provenance,
            a.created_at_ms == self.created_at_ms,
            a.updated_at_ms == now_ms,
            a.name == match name { Some(n) => n, None => self.name },
            a.tag == match tag { Some(t) => t, None => self.tag },
            a.note == match note { Some(n) => n, None => self.note },
            a.favorite == match favorite { Some(f) => f, None => self.favorite },
    {
        let mut a = self;
        if let Some(n) = name {
            a.name = n;
        }
        if let Some(t) = tag {
            a.tag = t;
        }
        if let Some(n) = note {
            a.note = n;
        }
        if let Some(f) = favorite {
            a.favorite = f;
        }
        a.updated_at_ms = now_ms;
        a
    }
}

/// The Rust debug name of an operation, as shown in provenance errors.
pub open spec fn operation_debug_name(op: ProvenanceOperation) -> Seq<char> {
    match op {
        ProvenanceOperation::Recorded => "Recorded"@,
        ProvenanceOperation::Processed => "Processed"@,
        ProvenanceOperation::Sampled => "Sampled"@,
        ProvenanceOperation::Separated => "Separated"@,
        ProvenanceOperation::Rendered => "Rendered"@,
        ProvenanceOperation::Generated => "Generated"@,
        ProvenanceOperation::Imported => "Imported"@,
    }
}

fn operation_debug_text(op: ProvenanceOperation) -> (s: &'static str)
    ensures
        s@ == operation_debug_name(op),
{
    match op {
        ProvenanceOperation::Recorded => "Recorded",
        ProvenanceOperation::Processed => "Processed",
        ProvenanceOperation::Sampled => "Sampled",
        ProvenanceOperation::Separated => "Separated",
        ProvenanceOperation::Rendered => "Rendered",
        ProvenanceOperation::Generated => "Generated",
        ProvenanceOperation::Imported => "Imported",
    }
}

/// Stored spelling of an asset kind.
pub open spec fn kind_db_spec(kind: AssetKind) -> Seq<char> {
    match kind {
        AssetKind::Audio => "audio"@,
        AssetKind::Midi => "midi"@,
        AssetKind::Sample => "sample"@,
        AssetKind::RackDefinition => "rackDefinition"@,
        AssetKind::GenerationDefinition => "generationDefinition"@,
    }
}

/// Stored spelling of a provenance operation.
pub open spec fn operation_db_spec(op: ProvenanceOperation) -> Seq<char> {
    match op {
        ProvenanceOperation::Recorded => "recorded"@,
        ProvenanceOperation::Processed => "processed"@,
        ProvenanceOperation::Sampled => "sampled"@,
        ProvenanceOperation::Separated => "separated"@,
        ProvenanceOperation::Rendered => "rendered"@,
        ProvenanceOperation::Generated => "generated"@,
        ProvenanceOperation::Imported => "imported"@,
    }
}

/// The stored spelling of an asset kind.
pub fn kind_to_db(kind: AssetKind) -> (s: &'static str)
    ensures
        s@ == kind_db_spec(kind),
{
    match kind {
        AssetKind::Audio => "audio",
        AssetKind::Midi => "midi",
        AssetKind::Sample => "sample",
        AssetKind::RackDefinition => "rackDefinition",
        AssetKind::GenerationDefinition => "generationDefinition",
    }
}

/// Reads a stored asset kind; unknown spellings give `None`.
pub fn kind_from_db(value: &str) -> (k: Option<AssetKind>)
    ensures
        match k {
            Some(kind) => kind_db_spec(kind) == value@,
            None => forall|kind: AssetKind| kind_db_spec(kind) != value@,
        },
{
    if str_eq(value, "audio") {
        Some(AssetKind::Audio)
    } else if str_eq(value, "midi") {
        Some(AssetKind::Midi)
    } else if str_eq(value, "sample") {
        Some(AssetKind::Sample)
    } else if str_eq(value, "rackDefinition") {
        Some(AssetKind::RackDefinition)
    } else if str_eq(value, "generationDefinition") {
        Some(AssetKind::GenerationDefinition)
    } else {
        None
    }
}

/// The stored spelling of a provenance operation.
pub fn operation_to_db(op: ProvenanceOperation) -> (s: &'static str)
    ensures
        s@ == operation_db_spec(op),
{
    match op {
        ProvenanceOperation::Recorded => "recorded",
        ProvenanceOperation::Processed => "processed",
        ProvenanceOperation::Sampled => "sampled",
        ProvenanceOperation::Separated => "separated",
        ProvenanceOperation::Rendered => "rendered",
        ProvenanceOperation::Generated => "generated",
        ProvenanceOperation::Imported => "imported",
    }
}

/// Reads a stored provenance operation; unknown spellings give `None`.
pub fn operation_from_db(value: &str) -> (o: Option<ProvenanceOperation>)
    ensures
        match o {
            Some(op) => operation_db_spec(op) == value@,
            None => forall|op: ProvenanceOperation| operation_db_spec(op) != value@,
        },
{
    if str_eq(value, "recorded") {
        Some(ProvenanceOperation::Recorded)
    } else if str_eq(value, "processed") {
        Some(ProvenanceOperation::Processed)
    } else if str_eq(value, "sampled") {
        Some(ProvenanceOperation::Sampled)
    } else if str_eq(value, "separated") {
        Some(ProvenanceOperation::Separated)
    } else if str_eq(value, "rendered") {
        Some(ProvenanceOperation::Rendered)
    } else if str_eq(value, "generated") {
        Some(ProvenanceOperation::Generated)
    } else if str_eq(value, "imported") {
        Some(ProvenanceOperation::Imported)
    } else {
        None
    }
}

/// Distinct kinds have distinct stored spellings, so a stored kind reads
/// back as itself.
pub proof fn law_kind_spelling_round_trips(a: AssetKind, b: AssetKind)
    ensures
        kind_db_spec(a) == kind_db_spec(b) ==> a == b,
{
    reveal_strlit("audio");
    reveal_strlit("midi");
    reveal_strlit("sample");
    reveal_strlit("rackDefinition");
    reveal_strlit("generationDefinition");
    if kind_db_spec(a) == kind_db_spec(b) && a != b {
        assert(kind_db_spec(a).len() != kind_db_spec(b).len() || kind_db_spec(a)[0] != kind_db_spec(b)[0]
            || kind_db_spec(a)[1] != kind_db_spec(b)[1]);
    }
}

/// Distinct operations have distinct stored spellings, so a stored
/// operation reads back as itself.
pub proof fn law_operation_spelling_round_trips(a: ProvenanceOperation, b: ProvenanceOperation)
    ensures
        operation_db_spec(a) == operation_db_spec(b) ==> a == b,
{
    reveal_strlit("recorded");
    reveal_strlit("processed");
    reveal_strlit("sampled");
    reveal_strlit("separated");
    reveal_strlit("rendered");
    reveal_strlit("generated");
    reveal_strlit("imported");
    if operation_db_spec(a) == operation_db_spec(b) && a != b {
        assert(operation_db_spec(a).len() != operation_db_spec(b).len() || operation_db_spec(a)[0] != operation_db_spec(b)[0]
            || operation_db_spec(a)[1] != operation_db_spec(b)[1] || operation_db_spec(a)[2] != operation_db_spec(b)[2]);
    }
}

/// Reads a stored signed integer as unsigned; negative values give `None`.
pub fn u64_from_i64(value: i64) -> (r: Option<u64>)
    ensures
        r == (if value >= 0 { Some(value as u64) } else { None::<u64> }),
{
    if value >= 0 {
        Some(value as u64)
    } else {
        None
    }
}

} // verus!
