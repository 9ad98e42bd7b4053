//! The rules of the canonical asset store: what may be registered under an
//! id, how a stored row reads back as an asset, how provenance is stored, and
//! how content locations are rewritten after a folder moves. The database
//! statements themselves are the host's.

use vstd::prelude::*;
use crate::asset::{
    asset_id_check, kind_db_spec, kind_from_db, operation_db_spec, operation_from_db, operation_to_db, u64_from_i64,
    Asset, AssetId, AssetKind, Provenance, ProvenanceOperation, empty_parameters,
};
use crate::text::{append_str, concat2, concat3, opt_view, to_string, trim_chars, trim_spec, string_from_range, chars_of};

verus! {

broadcast use vstd::string::group_string_axioms;

/// Why `name`, `content_location` and the stored asset under `id` (its kind
/// and whether its content is the same as the new file's) refuse a
/// registration, if they do.
pub open spec fn registration_check(
    id: Seq<char>,
    kind: AssetKind,
    name: Seq<char>,
    content_location: Seq<char>,
    content_is_file: bool,
    existing: Option<(AssetKind, bool)>,
) -> Result<(), Seq<char>> {
    if trim_spec(name).len() == 0 {
        Err("Asset name must not be empty."@)
    } else if trim_spec(content_location).len() == 0 {
        Err("Asset content location must not be empty."@)
    } else if !content_is_file {
        Err("Asset content file does not exist: "@ + content_location)
    } else {
        match existing {
            Some((existing_kind, same_content)) =>
                if existing_kind != kind || !same_content {
                    Err("Asset id conflict: "@ + id + " already refers to different production content."@)
                } else {
                    Ok(())
                },
            None => Ok(()),
        }
    }
}

/// Checks a registration before any row is written: the name and location
/// must not be blank, the content file must exist, and an id already stored
/// must hold the same kind and the same content.
pub fn check_registration(
    id: &AssetId,
    kind: AssetKind,
    name: &str,
    content_location: &str,
    content_is_file: bool,
    existing: Option<(AssetKind, bool)>,
) -> (r: Result<(), String>)
    ensures
        match registration_check(id@, kind, name@, content_location@, content_is_file, existing) {
            Ok(()) => r is Ok,
            Err(m) => r matches Err(e) && e@ == m,
        },
{
    if trim_chars(name).len() == 0 {
        return Err(to_string("Asset name must not be empty."));
    }
    if trim_chars(content_location).len() == 0 {
        return Err(to_string("Asset content location must not be empty."));
    }
    if !content_is_file {
        return Err(concat2("Asset content file does not exist: ", content_location));
    }
    match existing {
        Some((existing_kind, same_content)) => {
            if existing_kind != kind || !same_content {
                return Err(concat3("Asset id conflict: ", id.as_str(), " already refers to different production content."));
            }
            Ok(())
        },
        None => Ok(()),
    }
}

/// The ids among `s` that are valid asset ids, in order.
pub open spec fn valid_ids(s: Seq<Seq<char>>) -> Seq<Seq<char>>
    decreases s.len(),
{
    if s.len() == 0 {
        Seq::empty()
    } else {
        let kept = valid_ids(s.drop_last());
        if asset_id_check(s.last()) is Ok { kept.push(s.last()) } else { kept }
    }
}

/// The views of a sequence of strings.
pub open spec fn views(s: Seq<String>) -> Seq<Seq<char>> {
    Seq::new(s.len(), |i: int| s[i]@)
}

/// The views of a sequence of asset ids.
pub open spec fn id_views(s: Seq<AssetId>) -> Seq<Seq<char>> {
    Seq::new(s.len(), |i: int| s[i]@)
}

/// `p` is the provenance stored as `operation` with derived-from rows
/// `sources` (`None` when they could not be read): none without a known
/// operation or without readable sources; otherwise that operation and the
/// valid source ids, in order.
pub open spec fn stored_provenance(p: Option<Provenance>, operation: Option<Seq<char>>, sources: Option<Seq<Seq<char>>>) -> bool {
    match operation {
        None => p is None,
        Some(o) => {
            if forall|op: ProvenanceOperation| operation_db_spec(op) != o {
                p is None
            } else {
                match sources {
                    None => p is None,
                    Some(s) => p matches Some(pr) && operation_db_spec(pr.operation) == o
                        && id_views(pr.source_asset_ids@) == valid_ids(s),
                }
            }
        },
    }
}

/// The parameter map stored as JSON text
/// (`serde_json::from_str::<serde_json::Map<String, serde_json::Value>>`);
/// `None` when the text is not a JSON object. The entries are carried, not
/// read, so nothing is stated of them.
#[verifier::external_body]
fn parse_parameters(text: &str) -> (m: Option<serde_json::Map<String, serde_json::Value>>)
{
    serde_json::from_str::<serde_json::Map<String, serde_json::Value>>(text).ok()
}

/// The JSON text of a parameter map (`serde_json::to_string`), or the
/// encoder's error text. Encoding fails only when a `Serialize` impl fails
/// or a map key is not a string; a map of strings to JSON values has
/// neither, so the encoding always succeeds. The entries are never read by
/// this crate, so nothing is stated of the text.
#[verifier::external_body]
fn encode_parameters(m: &serde_json::Map<String, serde_json::Value>) -> (r: Result<String, String>)
    ensures
        r is Ok,
{
    serde_json::to_string(m).map_err(|error| error.to_string())
}

/// The valid asset ids among `ids`, in order.
fn keep_valid_ids(ids: Vec<String>) -> (r: Vec<AssetId>)
    ensures
        id_views(r@) == valid_ids(views(ids@)),
{
    let mut rest = ids;
    let ghost all = rest@;
    let ghost mut k: int = 0;
    let mut out: Vec<AssetId> = Vec::new();
    while rest.len() > 0
        invariant
            0 <= k <= all.len(),
            rest@ == all.skip(k),
            id_views(out@) == valid_ids(views(all.take(k))),
        decreases rest@.len(),
    {
        let id = rest.remove(0);
        assert(all[k] == id);
        assert(views(all.take(k + 1)).drop_last() =~= views(all.take(k)));
        assert(views(all.take(k + 1)).last() == id@);
        let ghost before = out@;
        match AssetId::from_normalized(id) {
            Ok(valid) => {
                out.push(valid);
                assert(id_views(out@) =~= id_views(before).push(all[k]@));
            },
            Err(_) => {},
        }
        proof { k = k + 1; }
    }
    assert(all.take(all.len() as int) =~= all);
    out
}

/// The provenance stored in an asset row as its operation and parameter
/// texts, with the source ids of its derived-from relations (`None` when
/// they could not be read). Unparsable parameters read as an empty map.
pub fn provenance_from_row(operation: Option<String>, parameters: Option<String>, sources: Option<Vec<String>>) -> (p: Option<Provenance>)
    ensures
        stored_provenance(p, opt_view(operation), match sources { Some(s) => Some(views(s@)), None => None }),
{
    let operation = match operation {
        Some(o) => o,
        None => return None,
    };
    let op = match operation_from_db(operation.as_str()) {
        Some(op) => op,
        None => return None,
    };
    let parameters = match parameters {
        Some(text) => match parse_parameters(text.as_str()) {
            Some(m) => m,
            None => empty_parameters(),
        },
        None => empty_parameters(),
    };
    match sources {
        None => None,
        Some(ids) => {
            let source_asset_ids = keep_valid_ids(ids);
            Some(Provenance { source_asset_ids, operation: op, parameters })
        },
    }
}

/// A row of the asset table, as read.
pub struct AssetRow {
    pub id: String,
    pub asset_kind: Option<String>,
    pub name: String,
    pub content_location: String,
    pub created_at_ms: Option<i64>,
    pub updated_at_ms: Option<i64>,
    pub tag: Option<String>,
    pub note: Option<String>,
    pub favorite: Option<i64>,
    pub provenance_operation: Option<String>,
    pub provenance_parameters: Option<String>,
}

/// A stored time in milliseconds: negative or missing reads as 0.
pub open spec fn stored_time(t: Option<i64>) -> u64 {
    match t {
        Some(v) => if v >= 0 { v as u64 } else { 0 },
        None => 0,
    }
}

/// Reads an asset row back as an asset; `None` when its kind is missing or
/// unknown or its id is not a valid asset id. `sources` are the source ids of
/// its derived-from relations (`None` when they could not be read).
pub fn asset_from_row(row: AssetRow, sources: Option<Vec<String>>) -> (r: Option<Asset>)
    ensures
        match row.asset_kind {
            None => r is None,
            Some(k) => if (forall|kind: AssetKind| kind_db_spec(kind) != k@) || asset_id_check(row.id@) is Err {
                r is None
            } else {
                r matches Some(a)
                    && a.id@ == row.id@
                    && kind_db_spec(a.kind) == k@
                    && a.name == row.name
                    && a.content_location == row.content_location
                    && a.created_at_ms == stored_time(row.created_at_ms)
                    && a.updated_at_ms == stored_time(row.updated_at_ms)
                    && a.tag == row.tag
                    && a.note == row.note
                    && a.favorite == (match row.favorite { Some(f) => f != 0, None => false })
                    && stored_provenance(a.provenance, opt_view(row.provenance_operation),
                        match sources { Some(s) => Some(views(s@)), None => None })
            },
        },
{
    let AssetRow {
        id, asset_kind, name, content_location, created_at_ms, updated_at_ms, tag, note, favorite,
        provenance_operation, provenance_parameters,
    } = row;
    let kind = match asset_kind {
        Some(k) => match kind_from_db(k.as_str()) {
            Some(kind) => kind,
            None => return None,
        },
        None => return None,
    };
    let provenance = provenance_from_row(provenance_operation, provenance_parameters, sources);
    let created = match created_at_ms {
        Some(v) => match u64_from_i64(v) { Some(t) => t, None => 0 },
        None => 0,
    };
    let updated = match updated_at_ms {
        Some(v) => match u64_from_i64(v) { Some(t) => t, None => 0 },
        None => 0,
    };
    let id = match AssetId::from_normalized(id) {
        Ok(id) => id,
        Err(_) => return None,
    };
    let favorite = match favorite {
        Some(f) => f != 0,
        None => false,
    };
    Some(Asset { id, kind, name, content_location, created_at_ms: created, updated_at_ms: updated, provenance, tag, note, favorite })
}

/// The stored operation and parameter texts of a provenance (both absent
/// without one). Encoding a parameter map never fails, so a provenance
/// always gives both texts.
pub fn provenance_columns(provenance: &Option<Provenance>) -> (r: Result<(Option<&'static str>, Option<String>), String>)
    ensures
        match provenance {
            None => r matches Ok((None, None)),
            Some(p) => r matches Ok((Some(o), Some(_))) && o@ == operation_db_spec(p.operation),
        },
{
    match provenance {
        None => Ok((None, None)),
        Some(p) => match encode_parameters(&p.parameters) {
            Ok(text) => Ok((Some(operation_to_db(p.operation)), Some(text))),
            Err(error) => {
                let m = concat2("Provenance parameters could not be encoded: ", error.as_str());
                proof { reveal_strlit("Provenance parameters could not be encoded: "); }
                assert("Provenance parameters could not be encoded: "@.is_prefix_of(m@));
                Err(m)
            },
        },
    }
}

/// `s` without trailing `\` and `/` characters.
pub open spec fn trim_end_separators(s: Seq<char>) -> Seq<char>
    decreases s.len(),
{
    if s.len() > 0 && (s.last() == '\\' || s.last() == '/') {
        trim_end_separators(s.drop_last())
    } else {
        s
    }
}

/// How stored content locations under a moved folder are rewritten: the old
/// and new folder (without trailing separators) and the two `LIKE` patterns
/// that select the locations inside the old one.
pub struct LocationRewrite {
    pub old_prefix: String,
    pub new_prefix: String,
    pub backslash_pattern: String,
    pub slash_pattern: String,
}

/// `s` without trailing separators.
fn without_trailing_separators(s: &str) -> (r: String)
    ensures
        r@ == trim_end_separators(s@),
{
    let c = chars_of(s);
    let mut end = c.len();
    assert(s@.take(end as int) =~= s@);
    while end > 0 && (c[end - 1] == '\\' || c[end - 1] == '/')
        invariant
            end <= c@.len(),
            c@ == s@,
            trim_end_separators(s@) == trim_end_separators(s@.take(end as int)),
        decreases end,
    {
        assert(s@.take(end as int).drop_last() =~= s@.take(end - 1));
        end -= 1;
    }
    assert(s@.take(end as int) =~= c@.subrange(0, end as int));
    string_from_range(&c, 0, end)
}

/// Plans the rewrite of content locations after the folder `old_prefix`
/// moved to `new_prefix`; `None` (nothing to do) when either is blank.
pub fn plan_location_rewrite(old_prefix: &str, new_prefix: &str) -> (r: Option<LocationRewrite>)
    ensures
        trim_spec(old_prefix@).len() == 0 || trim_spec(new_prefix@).len() == 0 ==> r is None,
        trim_spec(old_prefix@).len() > 0 && trim_spec(new_prefix@).len() > 0 ==> (r matches Some(w)
            && w.old_prefix@ == trim_end_separators(old_prefix@)
            && w.new_prefix@ == trim_end_separators(new_prefix@)
            && w.backslash_pattern@ == trim_end_separators(old_prefix@) + "\\\\%"@
            && w.slash_pattern@ == trim_end_separators(old_prefix@) + "/%"@),
{
    if trim_chars(old_prefix).len() == 0 || trim_chars(new_prefix).len() == 0 {
        return None;
    }
    let old = without_trailing_separators(old_prefix);
    let new = without_trailing_separators(new_prefix);
    let backslash_pattern = concat2(old.as_str(), "\\\\%");
    let slash_pattern = concat2(old.as_str(), "/%");
    Some(LocationRewrite { old_prefix: old, new_prefix: new, backslash_pattern, slash_pattern })
}

} // verus!
