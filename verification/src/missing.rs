//! Missing-dependency workflow: which referenced audio files and plugin
//! binaries are absent, relinking references to a newly registered asset,
//! and keeping a missing plugin as a disabled placeholder.

use vstd::prelude::*;
use crate::asset::AssetId;
use crate::rack::{DeviceKind, RackDevice};
use crate::session::{AudioClipRef, SamplePadRef, SessionReferences};
use crate::text::{concat2, to_string, opt_view, str_eq};
use crate::path::{simple_path, stem_of, final_segment, segments};
use crate::plugins::path_file_stem;

verus! {

broadcast use vstd::string::group_string_axioms;

/// A referenced file or plugin that is not present on disk.
pub struct MissingDependency {
    /// `file` for a missing audio asset, `plugin` for a missing plugin.
    pub kind: String,
    pub id: String,
    pub name: String,
    /// The resolved content location or plugin path, for display.
    pub path: String,
    pub asset_id: Option<AssetId>,
    /// Where the dependency is used (`timeline:`, `pad:` or `rack:` and an id).
    pub used_by: Vec<String>,
}

/// Mathematical view of a [`MissingDependency`].
pub struct MissingView {
    pub kind: Seq<char>,
    pub id: Seq<char>,
    pub name: Seq<char>,
    pub path: Seq<char>,
    pub asset_id: Option<Seq<char>>,
    pub used_by: Seq<Seq<char>>,
}

impl View for MissingDependency {
    type V = MissingView;

    open spec fn view(&self) -> MissingView {
        MissingView {
            kind: self.kind@,
            id: self.id@,
            name: self.name@,
            path: self.path@,
            asset_id: match self.asset_id { Some(a) => Some(a@), None => None },
            used_by: Seq::new(self.used_by@.len(), |i: int| self.used_by@[i]@),
        }
    }
}

/// What resolving one referenced asset found: its content location (if the
/// asset has a canonical record) and whether a file is there.
pub struct FileCheck {
    pub location: Option<String>,
    pub is_file: bool,
}

/// The missing entry for one file reference, if it is missing.
pub open spec fn missing_file(id: Seq<char>, name: Seq<char>, asset: Seq<char>, prefix: Seq<char>, check: FileCheck) -> Option<MissingView> {
    match check.location {
        None => Some(MissingView { kind: "file"@, id, name, path: asset, asset_id: Some(asset), used_by: seq![prefix + id] }),
        Some(loc) => if !check.is_file {
            Some(MissingView { kind: "file"@, id, name, path: loc@, asset_id: Some(asset), used_by: seq![prefix + id] })
        } else {
            None
        },
    }
}

/// The missing entry for one rack device, if it is a missing plugin.
pub open spec fn missing_device<P>(d: RackDevice<P>, present: bool) -> Option<MissingView> {
    if d.kind == DeviceKind::Plugin && !d.disabled_placeholder && !present {
        Some(MissingView {
            kind: "plugin"@,
            id: d.id@,
            name: d.name@,
            path: match d.path { Some(p) => p@, None => Seq::empty() },
            asset_id: None,
            used_by: seq!["rack:"@ + d.id@],
        })
    } else {
        None
    }
}

/// Appends an optional entry.
pub open spec fn push_opt(s: Seq<MissingView>, o: Option<MissingView>) -> Seq<MissingView> {
    match o {
        Some(m) => s.push(m),
        None => s,
    }
}

/// Missing entries of the first `n` clips.
pub open spec fn missing_clips(clips: Seq<AudioClipRef>, checks: Seq<FileCheck>, n: int) -> Seq<MissingView>
    decreases n,
{
    if n <= 0 {
        Seq::empty()
    } else {
        push_opt(missing_clips(clips, checks, n - 1),
            missing_file(clips[n - 1].id@, clips[n - 1].name@, clips[n - 1].asset_id@, "timeline:"@, checks[n - 1]))
    }
}

/// Missing entries of the first `n` pads.
pub open spec fn missing_pads(pads: Seq<SamplePadRef>, checks: Seq<FileCheck>, n: int) -> Seq<MissingView>
    decreases n,
{
    if n <= 0 {
        Seq::empty()
    } else {
        push_opt(missing_pads(pads, checks, n - 1),
            missing_file(pads[n - 1].id@, pads[n - 1].name@, pads[n - 1].asset_id@, "pad:"@, checks[n - 1]))
    }
}

/// Missing entries of the first `n` devices.
pub open spec fn missing_devices<P>(devices: Seq<RackDevice<P>>, present: Seq<bool>, n: int) -> Seq<MissingView>
    decreases n,
{
    if n <= 0 {
        Seq::empty()
    } else {
        push_opt(missing_devices(devices, present, n - 1), missing_device(devices[n - 1], present[n - 1]))
    }
}

/// How many of the first `n` checks found no file: the asset has no
/// content location, or nothing is at it.
pub open spec fn absent_files(checks: Seq<FileCheck>, n: int) -> nat
    decreases n,
{
    if n <= 0 {
        0
    } else {
        absent_files(checks, n - 1) + if checks[n - 1].location is Some && checks[n - 1].is_file { 0nat } else { 1nat }
    }
}

/// `m` reports reference `id` (of asset `asset`, listed under `prefix`)
/// whose check was `check`: a missing file at the resolved location, or
/// the asset id itself when it has no location.
pub open spec fn reports_file(m: MissingView, id: Seq<char>, name: Seq<char>, asset: Seq<char>, prefix: Seq<char>, check: FileCheck) -> bool {
    &&& m.kind == "file"@
    &&& m.id == id
    &&& m.name == name
    &&& m.asset_id == Some(asset)
    &&& m.used_by == seq![prefix + id]
    &&& match check.location {
        None => m.path == asset,
        Some(l) => !check.is_file && m.path == l@,
    }
}

/// A clip is reported missing exactly when no file backs it: one entry per
/// clip whose asset has no location or whose file is absent, each naming
/// the clip under `timeline:` with the location that was looked at (the
/// asset id when there is none); a clip whose file is present is never
/// reported.
pub proof fn law_missing_clips_are_absent_files(clips: Seq<AudioClipRef>, checks: Seq<FileCheck>, n: int)
    requires
        0 <= n <= clips.len(),
        n <= checks.len(),
    ensures
        missing_clips(clips, checks, n).len() == absent_files(checks, n),
        forall|k: int| 0 <= k < missing_clips(clips, checks, n).len() ==> exists|i: int| 0 <= i < n
            && reports_file(#[trigger] missing_clips(clips, checks, n)[k], clips[i].id@, clips[i].name@, clips[i].asset_id@, "timeline:"@, checks[i]),
    decreases n,
{
    if n > 0 {
        law_missing_clips_are_absent_files(clips, checks, n - 1);
        let before = missing_clips(clips, checks, n - 1);
        let all = missing_clips(clips, checks, n);
        let i = n - 1;
        assert forall|k: int| 0 <= k < all.len() implies exists|j: int| 0 <= j < n
            && reports_file(#[trigger] all[k], clips[j].id@, clips[j].name@, clips[j].asset_id@, "timeline:"@, checks[j]) by {
            if k < before.len() {
                assert(all[k] == before[k]);
            } else {
                assert(reports_file(all[k], clips[i].id@, clips[i].name@, clips[i].asset_id@, "timeline:"@, checks[i]));
            }
        }
    }
}

/// A pad is reported missing exactly when no file backs it, as clips are
/// (see `law_missing_clips_are_absent_files`), under `pad:`.
pub proof fn law_missing_pads_are_absent_files(pads: Seq<SamplePadRef>, checks: Seq<FileCheck>, n: int)
    requires
        0 <= n <= pads.len(),
        n <= checks.len(),
    ensures
        missing_pads(pads, checks, n).len() == absent_files(checks, n),
        forall|k: int| 0 <= k < missing_pads(pads, checks, n).len() ==> exists|i: int| 0 <= i < n
            && reports_file(#[trigger] missing_pads(pads, checks, n)[k], pads[i].id@, pads[i].name@, pads[i].asset_id@, "pad:"@, checks[i]),
    decreases n,
{
    if n > 0 {
        law_missing_pads_are_absent_files(pads, checks, n - 1);
        let before = missing_pads(pads, checks, n - 1);
        let all = missing_pads(pads, checks, n);
        let i = n - 1;
        assert forall|k: int| 0 <= k < all.len() implies exists|j: int| 0 <= j < n
            && reports_file(#[trigger] all[k], pads[j].id@, pads[j].name@, pads[j].asset_id@, "pad:"@, checks[j]) by {
            if k < before.len() {
                assert(all[k] == before[k]);
            } else {
                assert(reports_file(all[k], pads[i].id@, pads[i].name@, pads[i].asset_id@, "pad:"@, checks[i]));
            }
        }
    }
}

/// How many of the first `n` devices are plugins, not kept as disabled
/// placeholders, whose plugin file is absent.
pub open spec fn absent_plugins<P>(devices: Seq<RackDevice<P>>, present: Seq<bool>, n: int) -> nat
    decreases n,
{
    if n <= 0 {
        0
    } else {
        let d = devices[n - 1];
        absent_plugins(devices, present, n - 1)
            + if d.kind == DeviceKind::Plugin && !d.disabled_placeholder && !present[n - 1] { 1nat } else { 0nat }
    }
}

/// `m` reports device `d`, a plugin not kept as a disabled placeholder
/// whose file is absent: kind `plugin`, the device's id and name, listed
/// under `rack:`, with its plugin path.
pub open spec fn reports_plugin<P>(m: MissingView, d: RackDevice<P>, present: bool) -> bool {
    &&& d.kind == DeviceKind::Plugin && !d.disabled_placeholder && !present
    &&& m.kind == "plugin"@ && m.id == d.id@ && m.name == d.name@ && m.asset_id is None
    &&& m.used_by == seq!["rack:"@ + d.id@]
    &&& m.path == match d.path { Some(p) => p@, None => Seq::<char>::empty() }
}

/// A rack device is reported missing exactly when it is a plugin, not kept
/// as a disabled placeholder, whose file is absent; each entry is of kind
/// `plugin`, names the device under `rack:` and shows its plugin path.
pub proof fn law_missing_devices_are_absent_plugins<P>(devices: Seq<RackDevice<P>>, present: Seq<bool>, n: int)
    requires
        0 <= n <= devices.len(),
        n <= present.len(),
    ensures
        missing_devices(devices, present, n).len() == absent_plugins(devices, present, n),
        forall|k: int| 0 <= k < missing_devices(devices, present, n).len() ==> exists|i: int| 0 <= i < n
            && reports_plugin(#[trigger] missing_devices(devices, present, n)[k], devices[i], present[i]),
    decreases n,
{
    if n > 0 {
        law_missing_devices_are_absent_plugins(devices, present, n - 1);
        let before = missing_devices(devices, present, n - 1);
        let all = missing_devices(devices, present, n);
        assert forall|k: int| 0 <= k < all.len() implies exists|i: int| 0 <= i < n
            && reports_plugin(#[trigger] all[k], devices[i], present[i]) by {
            if k < before.len() {
                assert(all[k] == before[k]);
            } else {
                let i = n - 1;
                assert(reports_plugin(all[k], devices[i], present[i]));
            }
        }
    }
}

fn make_file_entry(id: &String, name: &String, asset_id: &AssetId, prefix: &str, check: &FileCheck) -> (r: Option<MissingDependency>)
    ensures
        match r { Some(m) => Some(m@), None => None::<MissingView> } == missing_file(id@, name@, asset_id@, prefix@, *check),
{
    match &check.location {
        None => {
            let mut used_by = Vec::new();
            used_by.push(concat2(prefix, id.as_str()));
            let m = MissingDependency {
                kind: to_string("file"),
                id: id.clone(),
                name: name.clone(),
                path: to_string(asset_id.as_str()),
                asset_id: Some(asset_id.copy_id()),
                used_by,
            };
            assert(m@.used_by =~= seq![prefix@ + id@]);
            Some(m)
        },
        Some(loc) => if !check.is_file {
            let mut used_by = Vec::new();
            used_by.push(concat2(prefix, id.as_str()));
            let m = MissingDependency {
                kind: to_string("file"),
                id: id.clone(),
                name: name.clone(),
                path: loc.clone(),
                asset_id: Some(asset_id.copy_id()),
                used_by,
            };
            assert(m@.used_by =~= seq![prefix@ + id@]);
            Some(m)
        } else {
            None
        },
    }
}

fn make_device_entry<P>(d: &RackDevice<P>, present: bool) -> (r: Option<MissingDependency>)
    ensures
        match r { Some(m) => Some(m@), None => None::<MissingView> } == missing_device(*d, present),
{
    if d.kind == DeviceKind::Plugin && !d.disabled_placeholder && !present {
        let mut used_by = Vec::new();
        used_by.push(concat2("rack:", d.id.as_str()));
        let m = MissingDependency {
            kind: to_string("plugin"),
            id: d.id.clone(),
            name: d.name.clone(),
            path: match &d.path {
                Some(p) => p.clone(),
                None => String::new(),
            },
            asset_id: None,
            used_by,
        };
        assert(m@.used_by =~= seq!["rack:"@ + d.id@]);
        Some(m)
    } else {
        None
    }
}

/// The views of a list of missing dependencies.
pub open spec fn views(v: Seq<MissingDependency>) -> Seq<MissingView> {
    Seq::new(v.len(), |i: int| v[i]@)
}

proof fn lemma_views_push(v: Seq<MissingDependency>, m: MissingDependency)
    ensures
        views(v.push(m)) == views(v).push(m@),
{
    assert(views(v.push(m)) =~= views(v).push(m@));
}

/// Collects every referenced audio file and plugin binary that is not on
/// disk: clips (`timeline:`), then pads (`pad:`), then plugin devices
/// (`rack:`). `clip_checks` and `pad_checks` describe, position by position,
/// what resolving each clip's and pad's asset found; `plugin_present` says
/// for each device whether its plugin path exists. A plugin kept as a
/// disabled placeholder is never reported. The session is not rejected.
pub fn collect_missing<P>(
    session: &SessionReferences<P>,
    clip_checks: &Vec<FileCheck>,
    pad_checks: &Vec<FileCheck>,
    plugin_present: &Vec<bool>,
) -> (missing: Vec<MissingDependency>)
    requires
        clip_checks@.len() == session.audio_clips@.len(),
        pad_checks@.len() == session.pads@.len(),
        plugin_present@.len() == session.devices@.len(),
    ensures
        views(missing@) == missing_clips(session.audio_clips@, clip_checks@, session.audio_clips@.len() as int)
            + missing_pads(session.pads@, pad_checks@, session.pads@.len() as int)
            + missing_devices(session.devices@, plugin_present@, session.devices@.len() as int),
{
    let mut out: Vec<MissingDependency> = Vec::new();
    let mut i: usize = 0;
    while i < session.audio_clips.len()
        invariant
            i <= session.audio_clips@.len(),
            clip_checks@.len() == session.audio_clips@.len(),
            views(out@) == missing_clips(session.audio_clips@, clip_checks@, i as int),
        decreases session.audio_clips@.len() - i,
    {
        let c = &session.audio_clips[i];
        let e = make_file_entry(&c.id, &c.name, &c.asset_id, "timeline:", &clip_checks[i]);
        if let Some(m) = e {
            proof { lemma_views_push(out@, m); }
            out.push(m);
        }
        i += 1;
    }
    let ghost a = views(out@);
    let mut j: usize = 0;
    while j < session.pads.len()
        invariant
            j <= session.pads@.len(),
            pad_checks@.len() == session.pads@.len(),
            views(out@) == a + missing_pads(session.pads@, pad_checks@, j as int),
        decreases session.pads@.len() - j,
    {
        let p = &session.pads[j];
        let e = make_file_entry(&p.id, &p.name, &p.asset_id, "pad:", &pad_checks[j]);
        if let Some(m) = e {
            proof { lemma_views_push(out@, m); }
            out.push(m);
            assert(views(out@) =~= a + missing_pads(session.pads@, pad_checks@, j + 1));
        } else {
            assert(views(out@) =~= a + missing_pads(session.pads@, pad_checks@, j + 1));
        }
        j += 1;
    }
    let ghost b = views(out@);
    let mut k: usize = 0;
    while k < session.devices.len()
        invariant
            k <= session.devices@.len(),
            plugin_present@.len() == session.devices@.len(),
            views(out@) == b + missing_devices(session.devices@, plugin_present@, k as int),
        decreases session.devices@.len() - k,
    {
        let e = make_device_entry(&session.devices[k], plugin_present[k]);
        if let Some(m) = e {
            proof { lemma_views_push(out@, m); }
            out.push(m);
            assert(views(out@) =~= b + missing_devices(session.devices@, plugin_present@, k + 1));
        } else {
            assert(views(out@) =~= b + missing_devices(session.devices@, plugin_present@, k + 1));
        }
        k += 1;
    }
    out
}

/// Re-points every clip and pad that references `asset_id` at
/// `new_asset_id` (an asset registered from the relinked file). Content is
/// immutable, so the old asset is left as it is; other references and the
/// rack are unchanged.
pub fn relink<P>(session: SessionReferences<P>, asset_id: &AssetId, new_asset_id: &AssetId) -> (next: SessionReferences<P>)
    ensures
        next.audio_clips@.len() == session.audio_clips@.len(),
        next.pads@.len() == session.pads@.len(),
        forall|i: int| 0 <= i < next.audio_clips@.len() ==> {
            &&& (#[trigger] next.audio_clips@[i]).id == session.audio_clips@[i].id
            &&& next.audio_clips@[i].name == session.audio_clips@[i].name
            &&& next.audio_clips@[i].asset_id@ == if session.audio_clips@[i].asset_id@ == asset_id@ { new_asset_id@ } else { session.audio_clips@[i].asset_id@ }
        },
        forall|i: int| 0 <= i < next.pads@.len() ==> {
            &&& (#[trigger] next.pads@[i]).id == session.pads@[i].id
            &&& next.pads@[i].name == session.pads@[i].name
            &&& next.pads@[i].asset_id@ == if session.pads@[i].asset_id@ == asset_id@ { new_asset_id@ } else { session.pads@[i].asset_id@ }
        },
        next.devices@ == session.devices@,
        next.design_target == session.design_target,
{
    let SessionReferences { audio_clips, pads, devices, design_target } = session;
    let mut clips: Vec<AudioClipRef> = Vec::new();
    let mut i: usize = 0;
    while i < audio_clips.len()
        invariant
            i <= audio_clips@.len(),
            clips@.len() == i,
            forall|k: int| 0 <= k < i ==> {
                &&& (#[trigger] clips@[k]).id == audio_clips@[k].id
                &&& clips@[k].name == audio_clips@[k].name
                &&& clips@[k].asset_id@ == if audio_clips@[k].asset_id@ == asset_id@ { new_asset_id@ } else { audio_clips@[k].asset_id@ }
            },
        decreases audio_clips@.len() - i,
    {
        let c = &audio_clips[i];
        let id = if c.asset_id.same_as(asset_id) { new_asset_id.copy_id() } else { c.asset_id.copy_id() };
        clips.push(AudioClipRef { id: c.id.clone(), name: c.name.clone(), asset_id: id });
        i += 1;
    }
    let mut new_pads: Vec<SamplePadRef> = Vec::new();
    let mut j: usize = 0;
    while j < pads.len()
        invariant
            j <= pads@.len(),
            new_pads@.len() == j,
            forall|k: int| 0 <= k < j ==> {
                &&& (#[trigger] new_pads@[k]).id == pads@[k].id
                &&& new_pads@[k].name == pads@[k].name
                &&& new_pads@[k].asset_id@ == if pads@[k].asset_id@ == asset_id@ { new_asset_id@ } else { pads@[k].asset_id@ }
            },
        decreases pads@.len() - j,
    {
        let p = &pads[j];
        let id = if p.asset_id.same_as(asset_id) { new_asset_id.copy_id() } else { p.asset_id.copy_id() };
        new_pads.push(SamplePadRef { id: p.id.clone(), name: p.name.clone(), asset_id: id });
        j += 1;
    }
    SessionReferences { audio_clips: clips, pads: new_pads, devices, design_target }
}

/// Relinking once the replacement file was registered: when registration
/// refused the file (an empty or missing path, for one), that error is
/// reported and no session results; otherwise the references move to the
/// new asset (see `relink`).
pub fn relink_registered<P>(session: SessionReferences<P>, asset_id: &AssetId, registered: Result<AssetId, String>) -> (r: Result<SessionReferences<P>, String>)
    ensures
        match registered {
            Err(e) => r matches Err(f) && f@ == e@,
            Ok(new_id) => r matches Ok(next) && {
                &&& next.audio_clips@.len() == session.audio_clips@.len()
                &&& next.pads@.len() == session.pads@.len()
                &&& forall|i: int| 0 <= i < next.audio_clips@.len() ==> {
                    &&& (#[trigger] next.audio_clips@[i]).id == session.audio_clips@[i].id
                    &&& next.audio_clips@[i].name == session.audio_clips@[i].name
                    &&& next.audio_clips@[i].asset_id@ == if session.audio_clips@[i].asset_id@ == asset_id@ { new_id@ } else { session.audio_clips@[i].asset_id@ }
                }
                &&& forall|i: int| 0 <= i < next.pads@.len() ==> {
                    &&& (#[trigger] next.pads@[i]).id == session.pads@[i].id
                    &&& next.pads@[i].name == session.pads@[i].name
                    &&& next.pads@[i].asset_id@ == if session.pads@[i].asset_id@ == asset_id@ { new_id@ } else { session.pads@[i].asset_id@ }
                }
                &&& next.devices@ == session.devices@
                &&& next.design_target == session.design_target
            },
        },
{
    match registered {
        Err(e) => Err(e),
        Ok(new_id) => Ok(relink(session, asset_id, &new_id)),
    }
}

/// The name of the asset registered for a relinked file: its file stem, or
/// `audio` when that is empty or not text. For a simple path (see
/// `simple_path`) that is the stem of its last segment.
pub fn relink_asset_name(new_path: &str) -> (name: String)
    ensures
        name@.len() > 0,
        simple_path(new_path@) ==> name@ == stem_of(final_segment(new_path@)),
{
    proof {
        reveal_strlit("audio");
        if simple_path(new_path@) {
            lemma_simple_stem_nonempty(new_path@);
        }
    }
    match path_file_stem(new_path) {
        Some(stem) => if stem.as_str().is_empty() { to_string("audio") } else { stem },
        None => to_string("audio"),
    }
}

proof fn lemma_simple_stem_nonempty(path: Seq<char>)
    requires
        simple_path(path),
    ensures
        stem_of(final_segment(path)).len() > 0,
{
    let i = crate::path::last_index_of(path, '/');
    crate::path::lemma_last_index_of(path, '/');
    let f = final_segment(path);
    if i >= 0 {
        assert(segments(path) == segments(path.take(i)).push(path.skip(i + 1)));
        assert(f =~= path.skip(i + 1));
        assert(segments(path)[segments(path).len() - 1] == f);
    } else {
        assert(segments(path) == seq![path]);
        assert(f =~= path);
        assert(segments(path)[0] == f);
    }
    crate::path::lemma_last_index_of(f, '.');
}

/// The devices after marking `device_id` as a disabled placeholder.
pub open spec fn marked_devices<P>(devices: Seq<RackDevice<P>>, device_id: Seq<char>) -> Seq<RackDevice<P>> {
    devices.map_values(|d: RackDevice<P>| if d.id@ == device_id { RackDevice { disabled_placeholder: true, ..d } } else { d })
}

/// The entries without the missing plugin `id`.
pub open spec fn without_plugin(s: Seq<MissingView>, id: Seq<char>) -> Seq<MissingView>
    decreases s.len(),
{
    if s.len() == 0 {
        s
    } else {
        let rest = without_plugin(s.drop_last(), id);
        if s.last().kind == "plugin"@ && s.last().id == id { rest } else { rest.push(s.last()) }
    }
}

proof fn lemma_marking_devices<P>(devices: Seq<RackDevice<P>>, present: Seq<bool>, device_id: Seq<char>, n: int)
    requires
        0 <= n <= devices.len(),
        present.len() == devices.len(),
    ensures
        missing_devices(marked_devices(devices, device_id), present, n) == without_plugin(missing_devices(devices, present, n), device_id),
    decreases n,
{
    reveal_strlit("plugin");
    if n > 0 {
        lemma_marking_devices(devices, present, device_id, n - 1);
        let d = devices[n - 1];
        let m = marked_devices(devices, device_id);
        assert(m[n - 1] == if d.id@ == device_id { RackDevice { disabled_placeholder: true, ..d } } else { d });
        let before = missing_devices(devices, present, n - 1);
        match missing_device(d, present[n - 1]) {
            Some(e) => {
                assert(before.push(e).drop_last() =~= before);
            },
            None => {},
        }
    }
}

/// Listing what is missing after a plugin was kept as a disabled
/// placeholder drops exactly that plugin: the file entries and every other
/// plugin entry stay as they were, in order.
pub proof fn law_marking_drops_exactly_that_plugin<P>(
    clips: Seq<AudioClipRef>,
    clip_checks: Seq<FileCheck>,
    pads: Seq<SamplePadRef>,
    pad_checks: Seq<FileCheck>,
    devices: Seq<RackDevice<P>>,
    present: Seq<bool>,
    device_id: Seq<char>,
)
    requires
        present.len() == devices.len(),
    ensures
        missing_clips(clips, clip_checks, clips.len() as int) + missing_pads(pads, pad_checks, pads.len() as int)
            + missing_devices(marked_devices(devices, device_id), present, devices.len() as int)
        == missing_clips(clips, clip_checks, clips.len() as int) + missing_pads(pads, pad_checks, pads.len() as int)
            + without_plugin(missing_devices(devices, present, devices.len() as int), device_id),
        forall|k: int| 0 <= k < without_plugin(missing_devices(devices, present, devices.len() as int), device_id).len()
            ==> !(#[trigger] without_plugin(missing_devices(devices, present, devices.len() as int), device_id)[k].id == device_id
                && without_plugin(missing_devices(devices, present, devices.len() as int), device_id)[k].kind == "plugin"@),
{
    lemma_marking_devices(devices, present, device_id, devices.len() as int);
    lemma_without_plugin_drops(missing_devices(devices, present, devices.len() as int), device_id);
}

proof fn lemma_without_plugin_drops(s: Seq<MissingView>, id: Seq<char>)
    ensures
        forall|k: int| 0 <= k < without_plugin(s, id).len()
            ==> !(#[trigger] without_plugin(s, id)[k].id == id && without_plugin(s, id)[k].kind == "plugin"@),
    decreases s.len(),
{
    if s.len() > 0 {
        lemma_without_plugin_drops(s.drop_last(), id);
    }
}

/// Marks the device(s) with id `device_id` as disabled placeholders; the
/// rack slot stays and nothing else changes.
pub fn mark_disabled_placeholder<P>(session: &mut SessionReferences<P>, device_id: &str)
    ensures
        final(session).audio_clips == old(session).audio_clips,
        final(session).pads == old(session).pads,
        final(session).design_target == old(session).design_target,
        final(session).devices@.len() == old(session).devices@.len(),
        forall|i: int| 0 <= i < final(session).devices@.len() ==> (#[trigger] final(session).devices@[i]) == if old(session).devices@[i].id@ == device_id@ {
            RackDevice { disabled_placeholder: true, ..old(session).devices@[i] }
        } else {
            old(session).devices@[i]
        },
{
    let mut i: usize = 0;
    let n = session.devices.len();
    while i < n
        invariant
            i <= n,
            n == old(session).devices@.len(),
            session.devices@.len() == n,
            session.audio_clips == old(session).audio_clips,
            session.pads == old(session).pads,
            session.design_target == old(session).design_target,
            forall|k: int| 0 <= k < i ==> (#[trigger] session.devices@[k]) == if old(session).devices@[k].id@ == device_id@ {
                RackDevice { disabled_placeholder: true, ..old(session).devices@[k] }
            } else {
                old(session).devices@[k]
            },
            forall|k: int| i <= k < n ==> (#[trigger] session.devices@[k]) == old(session).devices@[k],
        decreases n - i,
    {
        if str_eq(session.devices[i].id.as_str(), device_id) {
            let mut d = session.devices.remove(i);
            d.disabled_placeholder = true;
            session.devices.insert(i, d);
        }
        i += 1;
    }
}

} // verus!
