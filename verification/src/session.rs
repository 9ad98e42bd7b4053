//! The parts of a creative session that reference assets and plugins, and
//! the reference rules over them: which assets a session uses, whether each
//! has a canonical record, which dependencies are missing on disk, relinking
//! and disabling missing plugins.

use vstd::prelude::*;
use crate::asset::AssetId;
use crate::rack::{DeviceKind, RackDevice};
use crate::text::{concat2, concat3, to_string, append_str, opt_view};

verus! {

broadcast use vstd::string::group_string_axioms;

/// An arrangement audio clip, as far as asset references go.
pub struct AudioClipRef {
    pub id: String,
    pub name: String,
    pub asset_id: AssetId,
}

/// A sample pad, as far as asset references go.
pub struct SamplePadRef {
    pub id: String,
    pub name: String,
    pub asset_id: AssetId,
}

/// The asset and plugin references of a session.
pub struct SessionReferences<P> {
    pub audio_clips: Vec<AudioClipRef>,
    pub pads: Vec<SamplePadRef>,
    pub devices: Vec<RackDevice<P>>,
    pub design_target: Option<AssetId>,
}

/// The asset ids a session references, in order: clips, then pads, then
/// the design target.
pub open spec fn referenced_ids<P>(s: SessionReferences<P>) -> Seq<Seq<char>> {
    let clips = Seq::new(s.audio_clips@.len(), |i: int| s.audio_clips@[i].asset_id@);
    let pads = Seq::new(s.pads@.len(), |i: int| s.pads@[i].asset_id@);
    let target = match s.design_target {
        Some(t) => seq![t@],
        None => Seq::empty(),
    };
    clips + pads + target
}

/// What the `i`-th reference is (see [`referenced_ids`]).
pub open spec fn reference_kind<P>(s: SessionReferences<P>, i: int) -> Seq<char> {
    if i < s.audio_clips@.len() {
        "arrangement audio clip"@
    } else if i < s.audio_clips@.len() + s.pads@.len() {
        "sample pad"@
    } else {
        "design target"@
    }
}

/// The id of what makes the `i`-th reference.
pub open spec fn reference_owner<P>(s: SessionReferences<P>, i: int) -> Seq<char> {
    if i < s.audio_clips@.len() {
        s.audio_clips@[i].id@
    } else if i < s.audio_clips@.len() + s.pads@.len() {
        s.pads@[i - s.audio_clips@.len()].id@
    } else {
        "target"@
    }
}

/// A reference to an asset: what refers to it (`kind`, `id`) and the asset.
pub struct AssetReference {
    pub kind: &'static str,
    pub id: String,
    pub asset_id: AssetId,
}

/// The describing text of the first reference whose asset is unknown.
pub open spec fn unknown_reference_message(asset: Seq<char>, kind: Seq<char>, id: Seq<char>) -> Seq<char> {
    "Session references unknown AssetId "@ + asset + " ("@ + kind + " '"@ + id + "')."@
}

/// Every reference of a session, in the order they are checked.
pub fn asset_references<P>(session: &SessionReferences<P>) -> (refs: Vec<AssetReference>)
    ensures
        refs@.len() == referenced_ids(*session).len(),
        forall|i: int| 0 <= i < refs@.len() ==> (#[trigger] refs@[i]).asset_id@ == referenced_ids(*session)[i]
            && refs@[i].kind@ == reference_kind(*session, i) && refs@[i].id@ == reference_owner(*session, i),
{
    let mut refs: Vec<AssetReference> = Vec::new();
    let ghost ids = referenced_ids(*session);
    let mut i: usize = 0;
    while i < session.audio_clips.len()
        invariant
            i <= session.audio_clips@.len(),
            ids == referenced_ids(*session),
            refs@.len() == i,
            forall|k: int| 0 <= k < i ==> (#[trigger] refs@[k]).asset_id@ == ids[k]
                && refs@[k].kind@ == reference_kind(*session, k) && refs@[k].id@ == reference_owner(*session, k),
        decreases session.audio_clips@.len() - i,
    {
        let c = &session.audio_clips[i];
        refs.push(AssetReference { kind: "arrangement audio clip", id: c.id.clone(), asset_id: c.asset_id.copy_id() });
        i += 1;
    }
    let n = session.audio_clips.len();
    let mut j: usize = 0;
    while j < session.pads.len()
        invariant
            j <= session.pads@.len(),
            n == session.audio_clips@.len(),
            ids == referenced_ids(*session),
            refs@.len() == n + j,
            forall|k: int| 0 <= k < n + j ==> (#[trigger] refs@[k]).asset_id@ == ids[k]
                && refs@[k].kind@ == reference_kind(*session, k) && refs@[k].id@ == reference_owner(*session, k),
        decreases session.pads@.len() - j,
    {
        let p = &session.pads[j];
        refs.push(AssetReference { kind: "sample pad", id: p.id.clone(), asset_id: p.asset_id.copy_id() });
        j += 1;
    }
    if let Some(t) = &session.design_target {
        refs.push(AssetReference { kind: "design target", id: to_string("target"), asset_id: t.copy_id() });
    }
    refs
}

/// Whether `id` is among `known`.
pub open spec fn is_known(known: Seq<AssetId>, id: Seq<char>) -> bool {
    exists|k: int| 0 <= k < known.len() && (#[trigger] known[k])@ == id
}

fn contains_id(known: &Vec<AssetId>, id: &AssetId) -> (r: bool)
    ensures
        r == is_known(known@, id@),
{
    let mut i: usize = 0;
    while i < known.len()
        invariant
            i <= known@.len(),
            forall|k: int| 0 <= k < i ==> (#[trigger] known@[k])@ != id@,
        decreases known@.len() - i,
    {
        if known[i].same_as(id) {
            return true;
        }
        i += 1;
    }
    false
}

/// Checks that every asset a session references has a canonical record.
/// `registered` lists the referenced ids that have one (the file need not
/// exist: a record whose file is missing is a missing dependency, not an
/// invalid reference). The first unknown reference is reported.
pub fn validate_session_references<P>(session: &SessionReferences<P>, registered: &Vec<AssetId>) -> (r: Result<(), String>)
    ensures
        r is Ok <==> forall|i: int| 0 <= i < referenced_ids(*session).len() ==> is_known(registered@, #[trigger] referenced_ids(*session)[i]),
        r is Err ==> exists|i: int| 0 <= i < referenced_ids(*session).len()
            && !is_known(registered@, referenced_ids(*session)[i])
            && (forall|k: int| 0 <= k < i ==> is_known(registered@, #[trigger] referenced_ids(*session)[k]))
            && r->Err_0@ == unknown_reference_message(referenced_ids(*session)[i],
                reference_kind(*session, i), reference_owner(*session, i)),
{
    let refs = asset_references(session);
    let mut i: usize = 0;
    while i < refs.len()
        invariant
            i <= refs@.len(),
            refs@.len() == referenced_ids(*session).len(),
            forall|k: int| 0 <= k < refs@.len() ==> (#[trigger] refs@[k]).asset_id@ == referenced_ids(*session)[k]
                && refs@[k].kind@ == reference_kind(*session, k) && refs@[k].id@ == reference_owner(*session, k),
            forall|k: int| 0 <= k < i ==> is_known(registered@, #[trigger] referenced_ids(*session)[k]),
        decreases refs@.len() - i,
    {
        let r = &refs[i];
        if !contains_id(registered, &r.asset_id) {
            let mut m = concat2("Session references unknown AssetId ", r.asset_id.as_str());
            append_str(&mut m, " (");
            append_str(&mut m, r.kind);
            append_str(&mut m, " '");
            append_str(&mut m, r.id.as_str());
            append_str(&mut m, "').");
            return Err(m);
        }
        i += 1;
    }
    Ok(())
}

} // verus!
