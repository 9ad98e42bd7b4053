//! Project packages: which assets a session references, how they are named
//! inside a package, and the checks made when a package is imported.
//!
//! A package stores each referenced asset once, under `assets/`, and never
//! refers outside its own folder; importing never overwrites an asset of
//! the same id whose content differs.

use vstd::prelude::*;
use crate::asset::{AssetId, AssetKind, Provenance};
use crate::path::{path_components, path_is_absolute, any_escaping, escapes, join_path, PathPart, portable_relative, plain_segment, verbatim};
use crate::text::{concat2, concat3, to_string, chars_of, push_char, is_ws, is_whitespace, u64_to_decimal, decimal, str_eq, append_str};

verus! {

broadcast use vstd::string::group_string_axioms;

/// The package format this build reads and writes.
pub const MANIFEST_VERSION: u32 = 2;
/// Most assets stored in one package.
pub const PACKAGE_ASSET_LIMIT: usize = 256;

/// The outcome of exporting a project.
pub struct ProjectExport {
    pub path: String,
    pub session_id: String,
    pub exported_at_ms: u64,
    pub asset_count: usize,
}

/// One asset stored in (or missing from) a package.
pub struct PackagedAsset {
    pub asset_id: AssetId,
    pub name: String,
    pub asset_kind: AssetKind,
    pub provenance: Option<Provenance>,
    pub package_path: String,
    pub content_hash: u64,
    pub state: String,
}

/// `s` without repeats, each kept where it first occurs.
pub open spec fn distinct_in_order(s: Seq<Seq<char>>) -> Seq<Seq<char>>
    decreases s.len(),
{
    if s.len() == 0 {
        seq![]
    } else {
        let before = distinct_in_order(s.drop_last());
        if before.contains(s.last()) { before } else { before.push(s.last()) }
    }
}

pub open spec fn ids_view(v: Seq<AssetId>) -> Seq<Seq<char>> {
    v.map_values(|a: AssetId| a@)
}

fn contains_id(v: &Vec<AssetId>, id: &AssetId) -> (r: bool)
    ensures
        r == ids_view(v@).contains(id@),
{
    let mut i: usize = 0;
    while i < v.len()
        invariant
            i <= v.len(),
            !ids_view(v@).take(i as int).contains(id@),
        decreases v.len() - i,
    {
        assert(ids_view(v@)[i as int] == v@[i as int]@);
        if v[i].same_as(id) {
            return true;
        }
        assert(ids_view(v@).take(i as int + 1) =~= ids_view(v@).take(i as int).push(v@[i as int]@));
        i += 1;
    }
    assert(ids_view(v@).take(v.len() as int) =~= ids_view(v@));
    false
}

/// The assets a session references, each once: those of its audio clips,
/// then those of its sample pads, in order of first reference.
pub fn referenced_asset_ids(clip_assets: &Vec<AssetId>, pad_assets: &Vec<AssetId>) -> (ids: Vec<AssetId>)
    ensures
        ids_view(ids@) == distinct_in_order(ids_view(clip_assets@) + ids_view(pad_assets@)),
{
    let ghost all = ids_view(clip_assets@) + ids_view(pad_assets@);
    let mut ids: Vec<AssetId> = Vec::new();
    let mut i: usize = 0;
    while i < clip_assets.len()
        invariant
            all == ids_view(clip_assets@) + ids_view(pad_assets@),
            i <= clip_assets.len(),
            ids_view(ids@) == distinct_in_order(all.take(i as int)),
        decreases clip_assets.len() - i,
    {
        let id = &clip_assets[i];
        assert(all[i as int] == id@);
        assert(all.take(i as int + 1).drop_last() =~= all.take(i as int));
        if !contains_id(&ids, id) {
            let ghost before = ids_view(ids@);
            ids.push(id.copy_id());
            assert(ids_view(ids@) =~= before.push(id@));
        }
        i += 1;
    }
    let mut j: usize = 0;
    while j < pad_assets.len()
        invariant
            all == ids_view(clip_assets@) + ids_view(pad_assets@),
            j <= pad_assets.len(),
            ids_view(ids@) == distinct_in_order(all.take(clip_assets.len() + j)),
        decreases pad_assets.len() - j,
    {
        let id = &pad_assets[j];
        let ghost k = clip_assets.len() + j;
        assert(all[k] == id@);
        assert(all.take(k + 1).drop_last() =~= all.take(k));
        if !contains_id(&ids, id) {
            let ghost before = ids_view(ids@);
            ids.push(id.copy_id());
            assert(ids_view(ids@) =~= before.push(id@));
        }
        j += 1;
    }
    assert(all.take(clip_assets.len() + pad_assets.len()) =~= all);
    ids
}

/// Every referenced asset is listed once, and nothing else is.
pub proof fn law_referenced_ids_are_distinct(s: Seq<Seq<char>>)
    ensures
        distinct_in_order(s).no_duplicates(),
        forall|x: Seq<char>| distinct_in_order(s).contains(x) <==> s.contains(x),
    decreases s.len(),
{
    if s.len() > 0 {
        law_referenced_ids_are_distinct(s.drop_last());
        let before = distinct_in_order(s.drop_last());
        let l = s.last();
        assert forall|x: Seq<char>| distinct_in_order(s).contains(x) <==> s.contains(x) by {
            if s.contains(x) && x != l {
                let k = choose|k: int| 0 <= k < s.len() && s[k] == x;
                assert(k < s.len() - 1);
                assert(s.drop_last()[k] == x);
                assert(s.drop_last().contains(x));
                assert(before.contains(x));
                if !before.contains(l) {
                    let m = choose|m: int| 0 <= m < before.len() && before[m] == x;
                    assert(before.push(l)[m] == x);
                }
            }
            if s.contains(x) && x == l {
                if before.contains(l) {
                } else {
                    assert(before.push(l)[before.len() as int] == x);
                }
            }
            if distinct_in_order(s).contains(x) {
                if before.contains(x) {
                    assert(s.drop_last().contains(x));
                    let k = choose|k: int| 0 <= k < s.drop_last().len() && s.drop_last()[k] == x;
                    assert(s[k] == x);
                } else {
                    let m = choose|m: int| 0 <= m < before.push(l).len() && before.push(l)[m] == x;
                    if m < before.len() {
                        assert(before[m] == x);
                    }
                    assert(x == l);
                    assert(s[s.len() - 1] == x);
                }
            }
        }
    }
}

/// A character kept in a package name: ASCII letters and digits, `-` and
/// `_`; whitespace becomes `-`; anything else is dropped.
pub open spec fn name_char(c: char) -> Option<char> {
    if ('a' <= c && c <= 'z') || ('A' <= c && c <= 'Z') || ('0' <= c && c <= '9') || c == '-' || c == '_' {
        Some(c)
    } else if is_whitespace(c) {
        Some('-')
    } else {
        None
    }
}

pub open spec fn name_chars(s: Seq<char>) -> Seq<char>
    decreases s.len(),
{
    if s.len() == 0 {
        seq![]
    } else {
        match name_char(s.last()) {
            Some(c) => name_chars(s.drop_last()).push(c),
            None => name_chars(s.drop_last()),
        }
    }
}

/// A name safe for a file or folder: the kept characters, at most 80 of
/// them, or `scratch` when none is kept.
pub open spec fn safe_name_spec(value: Seq<char>) -> Seq<char> {
    let kept = name_chars(value);
    let cut = if kept.len() > 80 { kept.take(80) } else { kept };
    if cut.len() == 0 { "scratch"@ } else { cut }
}

/// A name safe for a file or folder; see `safe_name_spec`.
pub fn safe_name(value: &str) -> (r: String)
    ensures
        r@ == safe_name_spec(value@),
{
    let chars = chars_of(value);
    let mut out = String::new();
    let mut i: usize = 0;
    while i < chars.len()
        invariant
            chars@ == value@,
            i <= chars.len(),
            out@ == name_chars(value@.take(i as int)),
        decreases chars.len() - i,
    {
        let c = chars[i];
        assert(value@.take(i as int + 1).drop_last() =~= value@.take(i as int));
        if ('a' <= c && c <= 'z') || ('A' <= c && c <= 'Z') || ('0' <= c && c <= '9') || c == '-' || c == '_' {
            push_char(&mut out, c);
        } else if is_ws(c) {
            push_char(&mut out, '-');
        }
        i += 1;
    }
    assert(value@.take(chars.len() as int) =~= value@);
    let kept = chars_of(out.as_str());
    if kept.len() == 0 {
        return to_string("scratch");
    }
    let end = if kept.len() > 80 { 80 } else { kept.len() };
    let r = crate::text::string_from_range(&kept, 0, end);
    assert(r@ =~= (if kept@.len() > 80 { kept@.take(80) } else { kept@ }));
    r
}

/// The folder of an export: the safe project name (or `scratch`) and the
/// export time.
pub fn export_folder_name(project_name: Option<&str>, exported_at_ms: u64) -> (r: String)
    ensures
        r@ == safe_name_spec(match project_name { Some(n) => n@, None => "scratch"@ }) + "-"@ + decimal(exported_at_ms as nat),
{
    let name = safe_name(match project_name { Some(n) => n, None => "scratch" });
    let digits = u64_to_decimal(exported_at_ms);
    concat3(name.as_str(), "-", digits.as_str())
}

/// The name an asset is stored under: its safe file stem, or
/// `asset-<n>` when the stem is missing or keeps nothing; `n` is its
/// 1-based position.
pub open spec fn package_base(position: nat, stem: Option<Seq<char>>) -> Seq<char> {
    match stem {
        Some(s) if name_chars(s).len() > 0 => safe_name_spec(s),
        _ => "asset-"@ + decimal(position),
    }
}

/// The base name and the package path (`assets/<n>-<base>`) of the asset
/// at 0-based `index`.
pub fn package_name(index: usize, stem: Option<String>) -> (r: (String, String))
    requires
        index < usize::MAX,
    ensures
        r.0@ == package_base((index + 1) as nat, match stem { Some(s) => Some(s@), None => None }),
        r.1@ == "assets/"@ + decimal((index + 1) as nat) + "-"@ + r.0@,
{
    let position = u64_to_decimal((index + 1) as u64);
    let base = match stem {
        Some(s) => {
            let safe = safe_name(s.as_str());
            proof {
                if name_chars(s@).len() == 0 {
                    assert(safe@ == "scratch"@);
                }
            }
            let kept_any = !chars_name_empty(s.as_str());
            if kept_any { safe } else { concat2("asset-", position.as_str()) }
        },
        None => concat2("asset-", position.as_str()),
    };
    let mut path = to_string("assets/");
    append_str(&mut path, position.as_str());
    append_str(&mut path, "-");
    append_str(&mut path, base.as_str());
    (base, path)
}

fn chars_name_empty(value: &str) -> (r: bool)
    ensures
        r == (name_chars(value@).len() == 0),
{
    let chars = chars_of(value);
    let mut i: usize = 0;
    while i < chars.len()
        invariant
            chars@ == value@,
            i <= chars.len(),
            name_chars(value@.take(i as int)).len() == 0,
        decreases chars.len() - i,
    {
        let c = chars[i];
        assert(value@.take(i as int + 1).drop_last() =~= value@.take(i as int));
        if ('a' <= c && c <= 'z') || ('A' <= c && c <= 'Z') || ('0' <= c && c <= '9') || c == '-' || c == '_' || is_ws(c) {
            proof {
                lemma_name_chars_grow(value@, i as int);
            }
            return false;
        }
        i += 1;
    }
    assert(value@.take(chars.len() as int) =~= value@);
    true
}

proof fn lemma_name_chars_grow(s: Seq<char>, i: int)
    requires
        0 <= i < s.len(),
        name_char(s[i]) is Some,
    ensures
        name_chars(s).len() > 0,
    decreases s.len(),
{
    if i < s.len() - 1 {
        assert(s.drop_last()[i] == s[i]);
        lemma_name_chars_grow(s.drop_last(), i);
    }
}

/// An asset the package could not store: kept under its id, marked
/// `missing`.
pub fn missing_package(asset_id: AssetId) -> (p: PackagedAsset)
    ensures
        p.asset_id == asset_id,
        p.name@ == "missing"@,
        p.asset_kind == AssetKind::Audio,
        p.provenance is None,
        p.package_path@.len() == 0,
        p.content_hash == 0,
        p.state@ == "missing"@,
{
    PackagedAsset {
        asset_id,
        name: to_string("missing"),
        asset_kind: AssetKind::Audio,
        provenance: None,
        package_path: String::new(),
        content_hash: 0,
        state: to_string("missing"),
    }
}

/// An asset stored in the package: `collected` with the hash of its
/// content when it was copied and hashed, else `missing` with hash 0.
pub fn stored_package(
    asset_id: AssetId,
    name: String,
    asset_kind: AssetKind,
    provenance: Option<Provenance>,
    package_path: String,
    copied_hash: Option<u64>,
) -> (p: PackagedAsset)
    ensures
        p.asset_id == asset_id,
        p.name == name,
        p.asset_kind == asset_kind,
        p.provenance == provenance,
        p.package_path == package_path,
        p.content_hash == match copied_hash { Some(h) => h, None => 0 },
        p.state@ == if copied_hash is Some { "collected"@ } else { "missing"@ },
{
    let (state, content_hash) = match copied_hash {
        Some(h) => (to_string("collected"), h),
        None => (to_string("missing"), 0),
    };
    PackagedAsset { asset_id, name, asset_kind, provenance, package_path, content_hash, state }
}

/// Checks the format version of a package.
pub fn check_manifest_version(version: u32) -> (r: Result<(), String>)
    ensures
        r is Ok <==> version == MANIFEST_VERSION,
        r matches Err(e) ==> e@ == "Unsupported project manifest version "@ + decimal(version as nat) + "."@,
{
    if version != MANIFEST_VERSION {
        let digits = u64_to_decimal(version as u64);
        return Err(concat3("Unsupported project manifest version ", digits.as_str(), "."));
    }
    Ok(())
}

/// Resolves a stored asset's path inside the package: refused when it is
/// absolute or has a component that leaves the package (a parent, a root
/// or a drive); otherwise joined to the package folder (see `join_path`).
pub fn resolve_packaged_path(package_root: &str, package_path: &str) -> (r: Result<String, String>)
    ensures
        r matches Err(e) ==> e@ == "Project package path is not a safe relative path."@,
        portable_relative(package_path@) ==> r is Ok,
        r matches Ok(p) ==> (plain_segment(package_path@) && !verbatim(package_root@) ==> {
            &&& package_root@.is_prefix_of(p@)
            &&& p@.len() == package_root@.len() + package_path@.len() || p@.len() == package_root@.len() + package_path@.len() + 1
            &&& p@.subrange(p@.len() - package_path@.len(), p@.len() as int) == package_path@
        }),
{
    if path_is_absolute(package_path) || any_escaping(&path_components(package_path)) {
        return Err(to_string("Project package path is not a safe relative path."));
    }
    Ok(join_path(package_root, package_path))
}

/// What importing one stored asset does.
#[derive(Clone, Copy, Debug, PartialEq, Eq, Structural)]
pub enum ImportAction {
    /// The stored file is not in the package: nothing to import.
    Skip,
    /// An asset of that id with the same content exists: keep it.
    Keep,
    /// The asset is on record but its file is gone: restore it from the
    /// package under the same id.
    Restore,
    /// The asset is new: copy it in under its id.
    Copy,
}

/// The state of an existing asset of the same id: whether its content file
/// is present, and then the hash of that content (or why it could not be
/// read).
pub enum ExistingAsset {
    Absent,
    FileGone,
    Present(Result<u64, String>),
}

/// Decides the import of a stored asset: a missing stored file is skipped;
/// a non-canonical id is refused; an existing asset with a file must have
/// the stored content's hash (else the import is refused) and is kept; an
/// existing asset without a file is restored; a new one is copied.
pub fn import_decision(
    asset_id: &str,
    id_canonical: bool,
    stored_file_present: bool,
    stored_hash: u64,
    existing: ExistingAsset,
) -> (r: Result<ImportAction, String>)
    ensures
        !stored_file_present ==> r == Ok::<ImportAction, String>(ImportAction::Skip),
        stored_file_present && !id_canonical ==> (r matches Err(e)
            && e@ == "Project references a non-canonical AssetId "@ + asset_id@ + "; refusing to import legacy format."@),
        stored_file_present && id_canonical ==> match existing {
            ExistingAsset::Absent => r == Ok::<ImportAction, String>(ImportAction::Copy),
            ExistingAsset::FileGone => r == Ok::<ImportAction, String>(ImportAction::Restore),
            ExistingAsset::Present(Err(e)) => r matches Err(m) && m@ == e@,
            ExistingAsset::Present(Ok(h)) => if h == stored_hash {
                r == Ok::<ImportAction, String>(ImportAction::Keep)
            } else {
                r matches Err(m) && m@ == "Asset "@ + asset_id@ + " already exists with different content; refusing to overwrite."@
            },
        },
{
    if !stored_file_present {
        return Ok(ImportAction::Skip);
    }
    if !id_canonical {
        return Err(concat3("Project references a non-canonical AssetId ", asset_id, "; refusing to import legacy format."));
    }
    match existing {
        ExistingAsset::Absent => Ok(ImportAction::Copy),
        ExistingAsset::FileGone => Ok(ImportAction::Restore),
        ExistingAsset::Present(Err(e)) => Err(e),
        ExistingAsset::Present(Ok(h)) => if h == stored_hash {
            Ok(ImportAction::Keep)
        } else {
            Err(concat3("Asset ", asset_id, " already exists with different content; refusing to overwrite."))
        },
    }
}

/// The file name an imported asset is copied to: the safe name, the import
/// time and the stored file's extension (`wav` when it has none).
pub fn import_file_name(name: &str, now_ms: u64, extension: Option<&str>) -> (r: String)
    ensures
        r@ == safe_name_spec(name@) + "-"@ + decimal(now_ms as nat) + "."@ + match extension { Some(e) => e@, None => "wav"@ },
{
    let safe = safe_name(name);
    let digits = u64_to_decimal(now_ms);
    let mut r = concat3(safe.as_str(), "-", digits.as_str());
    append_str(&mut r, ".");
    append_str(&mut r, match extension { Some(e) => e, None => "wav" });
    r
}

/// The outcome of exporting a project with `asset_count` stored assets.
pub fn project_export(path: String, session_id: String, exported_at_ms: u64, asset_count: usize) -> (e: ProjectExport)
    ensures
        e.path == path,
        e.session_id == session_id,
        e.exported_at_ms == exported_at_ms,
        e.asset_count == asset_count,
{
    ProjectExport { path, session_id, exported_at_ms, asset_count }
}

} // verus!
