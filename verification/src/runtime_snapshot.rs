//! What the native graph receives of the arrangement.
//!
//! A plugin whose file is gone is projected as a disabled placeholder and
//! reported as missing; an audio clip whose asset cannot be located is left
//! out of its track and reported as unavailable. Everything else is
//! projected as it is.

use vstd::prelude::*;
use crate::text::str_eq;
use crate::take_placement::strings_view;
use crate::path::{join_path, joined, plain_segment, no_question_mark, lemma_join_keeps_no_question_mark};

verus! {

broadcast use vstd::string::group_string_axioms;

/// Where an internal instrument's definition comes from: a built-in preset
/// (with the folder the catalog resolved it to, `None` when it did not) or a
/// user snapshot of the project.
pub enum InstrumentResource {
    BuiltInPreset { resolved_base_dir: Option<String> },
    UserSnapshot { snapshot_id: String },
}

/// The folder an internal instrument's definition files are read from: a
/// resolved preset's own folder, the catalog root for a preset it did not
/// resolve, and `<data_root>/project-instruments/<snapshot_id>` for a user
/// snapshot (stated for a data root without `?` and a plain snapshot id).
pub fn instrument_base_dir(data_root: &str, catalog_root: &str, resource: &InstrumentResource) -> (dir: String)
    ensures
        match *resource {
            InstrumentResource::BuiltInPreset { resolved_base_dir: Some(d) } => dir@ == d@,
            InstrumentResource::BuiltInPreset { resolved_base_dir: None } => dir@ == catalog_root@,
            InstrumentResource::UserSnapshot { snapshot_id } =>
                no_question_mark(data_root@) && plain_segment(snapshot_id@) ==>
                    exists|folder: Seq<char>| #[trigger] joined(data_root@, "project-instruments"@, folder) && joined(folder, snapshot_id@, dir@),
        },
{
    match resource {
        InstrumentResource::BuiltInPreset { resolved_base_dir: Some(d) } => d.clone(),
        InstrumentResource::BuiltInPreset { resolved_base_dir: None } => catalog_root.to_string(),
        InstrumentResource::UserSnapshot { snapshot_id } => {
            proof {
                reveal_strlit("project-instruments");
                assert(plain_segment("project-instruments"@));
                assert(no_question_mark("project-instruments"@));
            }
            let folder = join_path(data_root, "project-instruments");
            proof {
                if no_question_mark(data_root@) {
                    lemma_join_keeps_no_question_mark(data_root@, "project-instruments"@, folder@);
                }
            }
            let dir = join_path(folder.as_str(), snapshot_id.as_str());
            proof {
                if no_question_mark(data_root@) && plain_segment(snapshot_id@) {
                    assert(joined(data_root@, "project-instruments"@, folder@));
                }
            }
            dir
        },
    }
}

/// A device of a track's rack, with whether its plugin file is present.
pub struct DeviceCheck {
    pub id: String,
    pub is_plugin: bool,
    pub disabled_placeholder: bool,
    pub path_present: bool,
}

/// The instrument of a track: an internal one, or a VST3 plugin with
/// whether its file is present.
pub enum InstrumentCheck {
    Internal,
    Vst3 { id: String, disabled_placeholder: bool, path_present: bool },
}

/// What the projection reads of one track.
pub struct TrackRuntimeInput {
    pub id: String,
    pub devices: Vec<DeviceCheck>,
    pub instrument: Option<InstrumentCheck>,
}

/// An audio clip and where its asset's content was found, if anywhere.
pub struct ClipLocation {
    pub clip_id: String,
    pub track_id: String,
    pub location: Option<String>,
}

/// How one track is projected: the placeholder flag of each rack device,
/// that of its VST3 instrument, and its playable audio clips (by position
/// in the clip list, with their content location).
pub struct TrackRuntimePlan {
    pub device_disabled: Vec<bool>,
    pub instrument_disabled: Option<bool>,
    pub audio_clips: Vec<(usize, String)>,
}

/// How the arrangement is projected.
pub struct RuntimeSnapshotPlan {
    pub tracks: Vec<TrackRuntimePlan>,
    pub unavailable_clip_ids: Vec<String>,
    pub missing_device_ids: Vec<String>,
}

/// A plugin device is projected disabled when it already was or its file is
/// gone; other devices keep their flag.
pub open spec fn device_disabled(d: DeviceCheck) -> bool {
    if d.is_plugin { d.disabled_placeholder || !d.path_present } else { d.disabled_placeholder }
}

/// A plugin that was enabled and whose file is gone.
pub open spec fn device_missing(d: DeviceCheck) -> bool {
    d.is_plugin && !d.disabled_placeholder && !d.path_present
}

pub open spec fn missing_devices(devices: Seq<DeviceCheck>) -> Seq<Seq<char>>
    decreases devices.len(),
{
    if devices.len() == 0 {
        seq![]
    } else {
        let before = missing_devices(devices.drop_last());
        if device_missing(devices.last()) { before.push(devices.last().id@) } else { before }
    }
}

pub open spec fn instrument_disabled(i: Option<InstrumentCheck>) -> Option<bool> {
    match i {
        Some(InstrumentCheck::Vst3 { disabled_placeholder, path_present, .. }) => Some(disabled_placeholder || !path_present),
        _ => None,
    }
}

pub open spec fn missing_instrument(i: Option<InstrumentCheck>) -> Seq<Seq<char>> {
    match i {
        Some(InstrumentCheck::Vst3 { id, disabled_placeholder, path_present }) =>
            if !disabled_placeholder && !path_present { seq![id@] } else { seq![] },
        _ => seq![],
    }
}

/// The missing plugins of a track: its rack's, then its instrument.
pub open spec fn track_missing(t: TrackRuntimeInput) -> Seq<Seq<char>> {
    missing_devices(t.devices@) + missing_instrument(t.instrument)
}

/// The playable clips of track `track_id` among the first `n` clips.
pub open spec fn track_clips(clips: Seq<ClipLocation>, track_id: Seq<char>, n: int) -> Seq<(int, Seq<char>)>
    decreases n,
{
    if n <= 0 {
        seq![]
    } else {
        let before = track_clips(clips, track_id, n - 1);
        let c = clips[n - 1];
        if c.track_id@ == track_id && c.location is Some { before.push((n - 1, c.location.unwrap()@)) } else { before }
    }
}

/// The clips of track `track_id` among the first `n` whose content was not
/// found.
pub open spec fn track_unavailable(clips: Seq<ClipLocation>, track_id: Seq<char>, n: int) -> Seq<Seq<char>>
    decreases n,
{
    if n <= 0 {
        seq![]
    } else {
        let before = track_unavailable(clips, track_id, n - 1);
        let c = clips[n - 1];
        if c.track_id@ == track_id && c.location is None { before.push(c.clip_id@) } else { before }
    }
}

pub open spec fn all_missing(tracks: Seq<TrackRuntimeInput>, m: int) -> Seq<Seq<char>>
    decreases m,
{
    if m <= 0 { seq![] } else { all_missing(tracks, m - 1) + track_missing(tracks[m - 1]) }
}

pub open spec fn all_unavailable(tracks: Seq<TrackRuntimeInput>, clips: Seq<ClipLocation>, m: int) -> Seq<Seq<char>>
    decreases m,
{
    if m <= 0 {
        seq![]
    } else {
        all_unavailable(tracks, clips, m - 1) + track_unavailable(clips, tracks[m - 1].id@, clips.len() as int)
    }
}

pub open spec fn clip_refs_view(v: Seq<(usize, String)>) -> Seq<(int, Seq<char>)> {
    v.map_values(|p: (usize, String)| (p.0 as int, p.1@))
}

/// Track `t` is projected as `plan`.
pub open spec fn track_planned(t: TrackRuntimeInput, clips: Seq<ClipLocation>, plan: TrackRuntimePlan) -> bool {
    &&& plan.device_disabled@.len() == t.devices@.len()
    &&& forall|k: int| 0 <= k < t.devices@.len() ==> plan.device_disabled@[k] == device_disabled(#[trigger] t.devices@[k])
    &&& plan.instrument_disabled == instrument_disabled(t.instrument)
    &&& clip_refs_view(plan.audio_clips@) == track_clips(clips, t.id@, clips.len() as int)
}

fn plan_track(t: &TrackRuntimeInput, clips: &Vec<ClipLocation>, missing: &mut Vec<String>, unavailable: &mut Vec<String>) -> (plan: TrackRuntimePlan)
    ensures
        track_planned(*t, clips@, plan),
        strings_view(final(missing)@) == strings_view(old(missing)@) + track_missing(*t),
        strings_view(final(unavailable)@) == strings_view(old(unavailable)@) + track_unavailable(clips@, t.id@, clips.len() as int),
{
    let ghost missing0 = strings_view(missing@);
    let mut flags: Vec<bool> = Vec::new();
    let mut k: usize = 0;
    while k < t.devices.len()
        invariant
            k <= t.devices.len(),
            flags@.len() == k,
            forall|i: int| 0 <= i < k ==> flags@[i] == device_disabled(#[trigger] t.devices@[i]),
            strings_view(missing@) == missing0 + missing_devices(t.devices@.take(k as int)),
        decreases t.devices.len() - k,
    {
        let d = &t.devices[k];
        assert(t.devices@.take(k as int + 1).drop_last() =~= t.devices@.take(k as int));
        if d.is_plugin && !d.disabled_placeholder && !d.path_present {
            let ghost before = strings_view(missing@);
            missing.push(d.id.clone());
            assert(strings_view(missing@) =~= before.push(d.id@));
        }
        let disabled = if d.is_plugin { d.disabled_placeholder || !d.path_present } else { d.disabled_placeholder };
        flags.push(disabled);
        k += 1;
    }
    assert(t.devices@.take(t.devices.len() as int) =~= t.devices@);
    let instrument = match &t.instrument {
        Some(InstrumentCheck::Vst3 { id, disabled_placeholder, path_present }) => {
            if !*disabled_placeholder && !*path_present {
                let ghost before = strings_view(missing@);
                missing.push(id.clone());
                assert(strings_view(missing@) =~= before.push(id@));
            }
            Some(*disabled_placeholder || !*path_present)
        },
        _ => None,
    };
    assert(strings_view(missing@) =~= missing0 + track_missing(*t));
    let ghost unavailable0 = strings_view(unavailable@);
    let mut refs: Vec<(usize, String)> = Vec::new();
    let mut c: usize = 0;
    while c < clips.len()
        invariant
            c <= clips.len(),
            clip_refs_view(refs@) == track_clips(clips@, t.id@, c as int),
            strings_view(unavailable@) == unavailable0 + track_unavailable(clips@, t.id@, c as int),
        decreases clips.len() - c,
    {
        let clip = &clips[c];
        if str_eq(clip.track_id.as_str(), t.id.as_str()) {
            match &clip.location {
                Some(location) => {
                    let ghost before = clip_refs_view(refs@);
                    refs.push((c, location.clone()));
                    assert(clip_refs_view(refs@) =~= before.push((c as int, location@)));
                },
                None => {
                    let ghost before = strings_view(unavailable@);
                    unavailable.push(clip.clip_id.clone());
                    assert(strings_view(unavailable@) =~= before.push(clip.clip_id@));
                },
            }
        }
        c += 1;
    }
    TrackRuntimePlan { device_disabled: flags, instrument_disabled: instrument, audio_clips: refs }
}

/// Plans the projection of the arrangement: every track as in
/// `track_planned`, the missing plugins track by track (rack first, then
/// the instrument), and the unavailable clips track by track, in clip
/// order.
pub fn plan_runtime_snapshot(tracks: &Vec<TrackRuntimeInput>, clips: &Vec<ClipLocation>) -> (plan: RuntimeSnapshotPlan)
    ensures
        plan.tracks@.len() == tracks@.len(),
        forall|i: int| 0 <= i < tracks@.len() ==> track_planned(#[trigger] tracks@[i], clips@, plan.tracks@[i]),
        strings_view(plan.missing_device_ids@) == all_missing(tracks@, tracks@.len() as int),
        strings_view(plan.unavailable_clip_ids@) == all_unavailable(tracks@, clips@, tracks@.len() as int),
{
    let mut plans: Vec<TrackRuntimePlan> = Vec::new();
    let mut missing: Vec<String> = Vec::new();
    let mut unavailable: Vec<String> = Vec::new();
    let mut i: usize = 0;
    assert(strings_view(missing@) =~= all_missing(tracks@, 0));
    assert(strings_view(unavailable@) =~= all_unavailable(tracks@, clips@, 0));
    while i < tracks.len()
        invariant
            i <= tracks.len(),
            plans@.len() == i,
            forall|k: int| 0 <= k < i ==> track_planned(#[trigger] tracks@[k], clips@, plans@[k]),
            strings_view(missing@) == all_missing(tracks@, i as int),
            strings_view(unavailable@) == all_unavailable(tracks@, clips@, i as int),
        decreases tracks.len() - i,
    {
        let p = plan_track(&tracks[i], clips, &mut missing, &mut unavailable);
        plans.push(p);
        i += 1;
    }
    RuntimeSnapshotPlan { tracks: plans, unavailable_clip_ids: unavailable, missing_device_ids: missing }
}

} // verus!
