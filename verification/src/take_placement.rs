//! Placing a finished recording on the arrangement.
//!
//! Every armed track gets one take per pass of the recording. Instrument
//! tracks receive a slice of the recorded MIDI, other tracks a clip of the
//! recorded audio. Only the last pass of a loop recording is active; the
//! earlier passes are kept, muted, as alternative takes. The takes are then
//! gathered in their recording session, which is created when it does not
//! exist yet.

use vstd::prelude::*;
use crate::asset::AssetId;
use crate::recording_index::{id_view, copy_opt_id};
use crate::text::{concat2, append_str, u64_to_decimal, decimal, str_eq, to_string};
use crate::wav::WavData;
use crate::timeline::{
    TimelineTick, TimelineLoopRange, RecordingSegment, MidiClip, ClipView, recording_segments,
    recording_segments_spec, slice_recorded_midi, sliced_clip, min_int, max_int,
};

verus! {

broadcast use vstd::string::group_string_axioms;

/// Kind of an arrangement track.
#[derive(Clone, Copy, Debug, PartialEq, Eq, Structural)]
pub enum TrackKind {
    Audio,
    Instrument,
}

/// The part of a track that placement reads.
pub struct TrackRef {
    pub id: String,
    pub kind: TrackKind,
}

/// Which recorded audio a take plays.
#[derive(Clone, Copy, Debug, PartialEq, Eq, Structural)]
pub enum AudioTakeVariant {
    Raw,
    Processed,
}

/// One take of a recording on one track.
pub struct RecordingTakeRecord {
    pub id: String,
    pub session_id: String,
    pub track_id: String,
    pub start_tick: TimelineTick,
    pub duration_ticks: u64,
    pub raw_audio_asset_id: Option<AssetId>,
    pub processed_audio_asset_id: Option<AssetId>,
    pub midi_asset_id: Option<AssetId>,
    pub active_variant: AudioTakeVariant,
    pub active: bool,
    pub clip_id: Option<String>,
}

/// The takes of one recording session.
pub struct RecordingSessionRecord {
    pub id: String,
    pub start_tick: TimelineTick,
    pub end_tick: TimelineTick,
    pub track_ids: Vec<String>,
    pub loop_recording: bool,
    pub take_ids: Vec<String>,
}

/// An audio clip to add to the arrangement: a frame range of a recorded
/// asset placed on a track.
pub struct AudioClipPlan {
    pub clip_id: String,
    pub track_id: String,
    pub asset_id: AssetId,
    pub start_tick: TimelineTick,
    pub sample_rate: u32,
    pub source_start: u64,
    pub source_end: u64,
    pub muted: bool,
}

/// The recording products, as assets.
pub struct RecordingOutputs {
    pub raw: Option<AssetId>,
    pub processed: Option<AssetId>,
    pub midi: Option<AssetId>,
}

/// What a finished recording brings to the arrangement.
pub struct TakeSource {
    pub recording_id: String,
    pub capture_key: String,
    pub armed_track_ids: Vec<String>,
    pub start_tick: TimelineTick,
    pub loop_recording: bool,
    pub outputs: RecordingOutputs,
    pub midi_source: Option<MidiClip>,
    /// Sample rate and frame count of the recorded audio.
    pub audio_source: Option<(u32, u64)>,
    /// Length of the recorded audio in ticks.
    pub audio_duration_ticks: Option<u64>,
}

/// The parts of the arrangement that placement changes.
pub struct RecordedTimeline {
    pub midi_clips: Vec<MidiClip>,
    pub takes: Vec<RecordingTakeRecord>,
    pub recording_sessions: Vec<RecordingSessionRecord>,
    pub revision: u64,
}

pub struct TrackView {
    pub id: Seq<char>,
    pub kind: TrackKind,
}

pub struct TakeView {
    pub id: Seq<char>,
    pub session_id: Seq<char>,
    pub track_id: Seq<char>,
    pub start: u64,
    pub duration: u64,
    pub raw: Option<Seq<char>>,
    pub processed: Option<Seq<char>>,
    pub midi: Option<Seq<char>>,
    pub variant: AudioTakeVariant,
    pub active: bool,
    pub clip_id: Option<Seq<char>>,
}

pub struct SessionView {
    pub id: Seq<char>,
    pub start: u64,
    pub end: u64,
    pub track_ids: Seq<Seq<char>>,
    pub loop_recording: bool,
    pub take_ids: Seq<Seq<char>>,
}

pub struct AudioPlanView {
    pub clip_id: Seq<char>,
    pub track_id: Seq<char>,
    pub asset_id: Seq<char>,
    pub start: u64,
    pub sample_rate: u32,
    pub source_start: u64,
    pub source_end: u64,
    pub muted: bool,
}

pub open spec fn strings_view(v: Seq<String>) -> Seq<Seq<char>> {
    v.map_values(|s: String| s@)
}

pub open spec fn opt_string_view(o: Option<String>) -> Option<Seq<char>> {
    match o {
        Some(s) => Some(s@),
        None => None,
    }
}

impl View for TrackRef {
    type V = TrackView;

    open spec fn view(&self) -> TrackView {
        TrackView { id: self.id@, kind: self.kind }
    }
}

impl View for RecordingTakeRecord {
    type V = TakeView;

    open spec fn view(&self) -> TakeView {
        TakeView {
            id: self.id@,
            session_id: self.session_id@,
            track_id: self.track_id@,
            start: self.start_tick.0,
            duration: self.duration_ticks,
            raw: id_view(self.raw_audio_asset_id),
            processed: id_view(self.processed_audio_asset_id),
            midi: id_view(self.midi_asset_id),
            variant: self.active_variant,
            active: self.active,
            clip_id: opt_string_view(self.clip_id),
        }
    }
}

impl View for RecordingSessionRecord {
    type V = SessionView;

    open spec fn view(&self) -> SessionView {
        SessionView {
            id: self.id@,
            start: self.start_tick.0,
            end: self.end_tick.0,
            track_ids: strings_view(self.track_ids@),
            loop_recording: self.loop_recording,
            take_ids: strings_view(self.take_ids@),
        }
    }
}

impl View for AudioClipPlan {
    type V = AudioPlanView;

    open spec fn view(&self) -> AudioPlanView {
        AudioPlanView {
            clip_id: self.clip_id@,
            track_id: self.track_id@,
            asset_id: self.asset_id@,
            start: self.start_tick.0,
            sample_rate: self.sample_rate,
            source_start: self.source_start,
            source_end: self.source_end,
            muted: self.muted,
        }
    }
}

pub open spec fn tracks_view(v: Seq<TrackRef>) -> Seq<TrackView> {
    v.map_values(|t: TrackRef| t@)
}

pub open spec fn takes_view(v: Seq<RecordingTakeRecord>) -> Seq<TakeView> {
    v.map_values(|t: RecordingTakeRecord| t@)
}

pub open spec fn sessions_view(v: Seq<RecordingSessionRecord>) -> Seq<SessionView> {
    v.map_values(|s: RecordingSessionRecord| s@)
}

pub open spec fn clips_view(v: Seq<MidiClip>) -> Seq<ClipView> {
    v.map_values(|c: MidiClip| c@)
}

pub open spec fn plans_view(v: Seq<AudioClipPlan>) -> Seq<AudioPlanView> {
    v.map_values(|c: AudioClipPlan| c@)
}

/// Everything placement reads, as values.
pub struct PlacementInput {
    pub tracks: Seq<TrackView>,
    pub armed: Seq<Seq<char>>,
    pub recording_id: Seq<char>,
    pub capture_key: Seq<char>,
    pub segments: Seq<RecordingSegment>,
    pub midi_source: Option<ClipView>,
    pub audio_source: Option<(u32, u64)>,
    pub total: int,
    pub raw: Option<Seq<char>>,
    pub processed: Option<Seq<char>>,
    pub midi: Option<Seq<char>>,
}

/// The length of a recording in ticks: that of its audio when there is
/// audio, else that of its MIDI, and at least one tick.
pub open spec fn total_duration_spec(audio_duration_ticks: Option<u64>, midi_source: Option<ClipView>) -> int {
    let d: int = match audio_duration_ticks {
        Some(t) => t as int,
        None => match midi_source {
            Some(c) => c.duration_ticks as int,
            None => 0,
        },
    };
    max_int(d, 1)
}

pub open spec fn placement_input(tracks: Seq<TrackRef>, loop_range: TimelineLoopRange, source: TakeSource) -> PlacementInput {
    let midi_source = match source.midi_source { Some(c) => Some(c@), None => None };
    let total = total_duration_spec(source.audio_duration_ticks, midi_source);
    PlacementInput {
        tracks: tracks_view(tracks),
        armed: strings_view(source.armed_track_ids@),
        recording_id: source.recording_id@,
        capture_key: source.capture_key@,
        segments: recording_segments_spec(source.start_tick, total as u64, source.loop_recording, loop_range),
        midi_source,
        audio_source: source.audio_source,
        total,
        raw: id_view(source.outputs.raw),
        processed: id_view(source.outputs.processed),
        midi: id_view(source.outputs.midi),
    }
}

/// The first track with id `id` among the first `n`, or -1.
pub open spec fn first_track(tracks: Seq<TrackView>, id: Seq<char>, n: int) -> int
    decreases n,
{
    if n <= 0 {
        -1
    } else {
        let p = first_track(tracks, id, n - 1);
        if p >= 0 { p } else if tracks[n - 1].id == id { n - 1 } else { -1 }
    }
}

/// `take:<recording>:<capture>:<track>:<pass>`.
pub open spec fn take_id_spec(recording_id: Seq<char>, capture_key: Seq<char>, track_id: Seq<char>, pass: nat) -> Seq<char> {
    "take:"@ + recording_id + seq![':'] + capture_key + seq![':'] + track_id + seq![':'] + decimal(pass)
}

/// `a * b`, saturating at `u64::MAX`.
pub open spec fn saturating_product(a: u64, b: u64) -> int {
    min_int(a * b, u64::MAX as int)
}

/// The frame range of pass `seg` in a recording of `frames` frames and
/// `total` ticks; the range holds at least one frame when the recording
/// has one past its start.
pub open spec fn pass_frames(frames: u64, seg: RecordingSegment, total: int) -> (int, int) {
    let start = saturating_product(frames, seg.relative_start_tick) / total;
    let end = saturating_product(frames, seg.relative_end_tick) / total;
    let end = min_int(max_int(end, min_int(start + 1, u64::MAX as int)), frames as int);
    (start, end)
}

/// A take placed on the timeline, with the clip it plays.
pub struct Placed {
    pub take: TakeView,
    pub midi_clip: Option<ClipView>,
    pub audio_clip: Option<AudioPlanView>,
}

/// The take record of pass `i` on `track`, playing clip `clip_id`.
pub open spec fn take_for(inp: PlacementInput, track: TrackView, i: int, clip_id: Seq<char>) -> TakeView {
    let seg = inp.segments[i];
    TakeView {
        id: take_id_spec(inp.recording_id, inp.capture_key, track.id, i as nat),
        session_id: inp.recording_id,
        track_id: track.id,
        start: seg.start_tick.0,
        duration: seg.duration_ticks,
        raw: inp.raw,
        processed: inp.processed,
        midi: inp.midi,
        variant: if inp.processed is Some { AudioTakeVariant::Processed } else { AudioTakeVariant::Raw },
        active: i + 1 == inp.segments.len(),
        clip_id: Some(clip_id),
    }
}

/// `c` with its muted flag set to `muted`.
pub open spec fn with_muted(c: ClipView, muted: bool) -> ClipView {
    ClipView {
        id: c.id,
        name: c.name,
        track_id: c.track_id,
        asset_id: c.asset_id,
        start_tick: c.start_tick,
        duration_ticks: c.duration_ticks,
        notes: c.notes,
        events: c.events,
        muted,
        loop_enabled: c.loop_enabled,
    }
}

/// Pass `i` of the recording on `track`: on an instrument track a slice
/// of the recorded MIDI, on another track a frame range of the processed
/// (else the raw) audio; nothing when that source is missing or the frame
/// range is empty. Only the last pass is active.
pub open spec fn placed_on(inp: PlacementInput, track: TrackView, i: int) -> Option<Placed> {
    let seg = inp.segments[i];
    let take_id = take_id_spec(inp.recording_id, inp.capture_key, track.id, i as nat);
    let active = i + 1 == inp.segments.len();
    if track.kind == TrackKind::Instrument {
        match inp.midi_source {
            None => None,
            Some(source) => {
                let clip_id = "midi-clip:"@ + take_id;
                Some(Placed {
                    take: take_for(inp, track, i, clip_id),
                    midi_clip: Some(with_muted(sliced_clip(source, track.id, seg, inp.midi, clip_id), !active)),
                    audio_clip: None,
                })
            },
        }
    } else {
        let asset = if inp.processed is Some { inp.processed } else { inp.raw };
        match (asset, inp.audio_source) {
            (Some(asset_id), Some((sample_rate, frames))) => {
                let (start, end) = pass_frames(frames, seg, inp.total);
                if end <= start {
                    None
                } else {
                    let clip_id = "clip:"@ + take_id;
                    Some(Placed {
                        take: take_for(inp, track, i, clip_id),
                        midi_clip: None,
                        audio_clip: Some(AudioPlanView {
                            clip_id,
                            track_id: track.id,
                            asset_id,
                            start: seg.start_tick.0,
                            sample_rate,
                            source_start: start as u64,
                            source_end: end as u64,
                            muted: !active,
                        }),
                    })
                }
            },
            _ => None,
        }
    }
}

/// The takes placed on the track armed at position `j`, for its first `n`
/// passes; none when no track has that id.
pub open spec fn placed_for_track(inp: PlacementInput, j: int, n: int) -> Seq<Placed>
    decreases n,
{
    if n <= 0 {
        seq![]
    } else {
        let before = placed_for_track(inp, j, n - 1);
        let p = first_track(inp.tracks, inp.armed[j], inp.tracks.len() as int);
        if p < 0 {
            before
        } else {
            match placed_on(inp, inp.tracks[p], n - 1) {
                Some(x) => before.push(x),
                None => before,
            }
        }
    }
}

/// The takes placed on the first `m` armed tracks, track after track.
pub open spec fn placed_upto(inp: PlacementInput, m: int) -> Seq<Placed>
    decreases m,
{
    if m <= 0 {
        seq![]
    } else {
        placed_upto(inp, m - 1) + placed_for_track(inp, m - 1, inp.segments.len() as int)
    }
}

pub open spec fn all_placed(inp: PlacementInput) -> Seq<Placed> {
    placed_upto(inp, inp.armed.len() as int)
}

pub open spec fn takes_of(s: Seq<Placed>) -> Seq<TakeView>
    decreases s.len(),
{
    if s.len() == 0 { seq![] } else { takes_of(s.drop_last()).push(s.last().take) }
}

pub open spec fn midi_clips_of(s: Seq<Placed>) -> Seq<ClipView>
    decreases s.len(),
{
    if s.len() == 0 {
        seq![]
    } else {
        match s.last().midi_clip {
            Some(c) => midi_clips_of(s.drop_last()).push(c),
            None => midi_clips_of(s.drop_last()),
        }
    }
}

pub open spec fn audio_clips_of(s: Seq<Placed>) -> Seq<AudioPlanView>
    decreases s.len(),
{
    if s.len() == 0 {
        seq![]
    } else {
        match s.last().audio_clip {
            Some(c) => audio_clips_of(s.drop_last()).push(c),
            None => audio_clips_of(s.drop_last()),
        }
    }
}

/// The latest end of a placed take, and at least `start`; ends saturate at
/// `u64::MAX`.
pub open spec fn latest_end(s: Seq<Placed>, start: u64) -> int
    decreases s.len(),
{
    if s.len() == 0 {
        start as int
    } else {
        max_int(latest_end(s.drop_last(), start), min_int(s.last().take.start + s.last().take.duration, u64::MAX as int))
    }
}

/// The tracks of the takes in `takes` whose id is one of `ids`, in order.
pub open spec fn tracks_of_takes(takes: Seq<TakeView>, ids: Seq<Seq<char>>) -> Seq<Seq<char>>
    decreases takes.len(),
{
    if takes.len() == 0 {
        seq![]
    } else {
        let before = tracks_of_takes(takes.drop_last(), ids);
        if ids.contains(takes.last().id) { before.push(takes.last().track_id) } else { before }
    }
}

/// `existing` followed by those of `added` it does not hold yet.
pub open spec fn append_missing(existing: Seq<Seq<char>>, added: Seq<Seq<char>>) -> Seq<Seq<char>>
    decreases added.len(),
{
    if added.len() == 0 {
        existing
    } else {
        let before = append_missing(existing, added.drop_last());
        if before.contains(added.last()) { before } else { before.push(added.last()) }
    }
}

/// The first session with id `id` among the first `n`, or -1.
pub open spec fn first_session(sessions: Seq<SessionView>, id: Seq<char>, n: int) -> int
    decreases n,
{
    if n <= 0 {
        -1
    } else {
        let p = first_session(sessions, id, n - 1);
        if p >= 0 { p } else if sessions[n - 1].id == id { n - 1 } else { -1 }
    }
}

/// Records the new takes in their recording session: an existing session
/// widens to cover them, gains their tracks it lacks and lists their ids;
/// otherwise a new session is added.
pub open spec fn merge_session(
    sessions: Seq<SessionView>,
    id: Seq<char>,
    start: u64,
    end: u64,
    track_ids: Seq<Seq<char>>,
    loop_recording: bool,
    take_ids: Seq<Seq<char>>,
) -> Seq<SessionView> {
    let p = first_session(sessions, id, sessions.len() as int);
    if p >= 0 {
        let s = sessions[p];
        sessions.update(p, SessionView {
            id: s.id,
            start: min_int(s.start as int, start as int) as u64,
            end: max_int(s.end as int, end as int) as u64,
            track_ids: append_missing(s.track_ids, track_ids),
            loop_recording: s.loop_recording || loop_recording,
            take_ids: s.take_ids + take_ids,
        })
    } else {
        sessions.push(SessionView { id, start, end, track_ids, loop_recording, take_ids })
    }
}

proof fn lemma_first_track_stable(tracks: Seq<TrackView>, id: Seq<char>, i: int, n: int)
    requires
        0 <= i < n,
        first_track(tracks, id, i + 1) == i,
    ensures
        first_track(tracks, id, n) == i,
    decreases n,
{
    if n > i + 1 {
        lemma_first_track_stable(tracks, id, i, n - 1);
    }
}

fn find_track(tracks: &Vec<TrackRef>, id: &str) -> (p: Option<usize>)
    ensures
        match p {
            Some(i) => i < tracks.len() && i as int == first_track(tracks_view(tracks@), id@, tracks.len() as int),
            None => first_track(tracks_view(tracks@), id@, tracks.len() as int) == -1,
        },
{
    let mut i: usize = 0;
    while i < tracks.len()
        invariant
            i <= tracks.len(),
            first_track(tracks_view(tracks@), id@, i as int) == -1,
        decreases tracks.len() - i,
    {
        if str_eq(tracks[i].id.as_str(), id) {
            assert(tracks_view(tracks@)[i as int] == tracks@[i as int]@);
            proof { lemma_first_track_stable(tracks_view(tracks@), id@, i as int, tracks.len() as int); }
            return Some(i);
        }
        assert(tracks_view(tracks@)[i as int] == tracks@[i as int]@);
        i += 1;
    }
    None
}

/// Whether `v` holds `s`.
pub fn contains_str(v: &Vec<String>, s: &str) -> (r: bool)
    ensures
        r == strings_view(v@).contains(s@),
{
    let mut i: usize = 0;
    while i < v.len()
        invariant
            i <= v.len(),
            !strings_view(v@).take(i as int).contains(s@),
        decreases v.len() - i,
    {
        assert(strings_view(v@)[i as int] == v@[i as int]@);
        if str_eq(v[i].as_str(), s) {
            return true;
        }
        assert(strings_view(v@).take(i as int + 1) =~= strings_view(v@).take(i as int).push(v@[i as int]@));
        i += 1;
    }
    assert(strings_view(v@).take(v.len() as int) =~= strings_view(v@));
    false
}

fn saturating_mul(a: u64, b: u64) -> (r: u64)
    ensures
        r == saturating_product(a, b),
{
    match a.checked_mul(b) {
        Some(v) => v,
        None => u64::MAX,
    }
}

fn take_id(recording_id: &str, capture_key: &str, track_id: &str, pass: usize) -> (id: String)
    ensures
        id@ == take_id_spec(recording_id@, capture_key@, track_id@, pass as nat),
{
    let mut id = concat2("take:", recording_id);
    append_str(&mut id, ":");
    append_str(&mut id, capture_key);
    append_str(&mut id, ":");
    append_str(&mut id, track_id);
    append_str(&mut id, ":");
    let digits = u64_to_decimal(pass as u64);
    append_str(&mut id, digits.as_str());
    proof {
        reveal_strlit(":");
        assert(":"@ =~= seq![':']);
        assert(id@ =~= take_id_spec(recording_id@, capture_key@, track_id@, pass as nat));
    }
    id
}

fn total_duration(audio_duration_ticks: Option<u64>, midi_source: &Option<MidiClip>) -> (t: u64)
    ensures
        t as int == total_duration_spec(audio_duration_ticks, match *midi_source { Some(c) => Some(c@), None => None }),
{
    let d: u64 = match audio_duration_ticks {
        Some(t) => t,
        None => match midi_source {
            Some(c) => c.duration_ticks,
            None => 0,
        },
    };
    if d < 1 { 1 } else { d }
}

/// Takes, clips and plans placed by one pass on one track.
pub type PlacedParts = (RecordingTakeRecord, Option<MidiClip>, Option<AudioClipPlan>);

pub open spec fn parts_view(x: PlacedParts) -> Placed {
    Placed {
        take: x.0@,
        midi_clip: match x.1 { Some(c) => Some(c@), None => None },
        audio_clip: match x.2 { Some(c) => Some(c@), None => None },
    }
}

#[verifier::rlimit(40)]
fn place_one(
    source: &TakeSource,
    segments: &Vec<RecordingSegment>,
    total: u64,
    track: &TrackRef,
    i: usize,
    Ghost(inp): Ghost<PlacementInput>,
) -> (r: Option<PlacedParts>)
    requires
        i < segments.len(),
        inp.segments == segments@,
        inp.total == total as int,
        total >= 1,
        inp.recording_id == source.recording_id@,
        inp.capture_key == source.capture_key@,
        inp.midi_source == match source.midi_source { Some(c) => Some(c@), None => None::<ClipView> },
        inp.audio_source == source.audio_source,
        inp.raw == id_view(source.outputs.raw),
        inp.processed == id_view(source.outputs.processed),
        inp.midi == id_view(source.outputs.midi),
    ensures
        match r {
            Some(x) => placed_on(inp, track@, i as int) == Some(parts_view(x)),
            None => placed_on(inp, track@, i as int) is None,
        },
{
    let seg = segments[i];
    let tid = take_id(source.recording_id.as_str(), source.capture_key.as_str(), track.id.as_str(), i);
    let active = i + 1 == segments.len();
    let variant = if source.outputs.processed.is_some() { AudioTakeVariant::Processed } else { AudioTakeVariant::Raw };
    if track.kind == TrackKind::Instrument {
        match &source.midi_source {
            None => None,
            Some(midi) => {
                let clip_id = concat2("midi-clip:", tid.as_str());
                let mut clip = slice_recorded_midi(midi, track.id.as_str(), seg, copy_opt_id(&source.outputs.midi), clip_id.clone());
                clip.muted = !active;
                let take = RecordingTakeRecord {
                    id: tid,
                    session_id: source.recording_id.clone(),
                    track_id: track.id.clone(),
                    start_tick: seg.start_tick,
                    duration_ticks: seg.duration_ticks,
                    raw_audio_asset_id: copy_opt_id(&source.outputs.raw),
                    processed_audio_asset_id: copy_opt_id(&source.outputs.processed),
                    midi_asset_id: copy_opt_id(&source.outputs.midi),
                    active_variant: variant,
                    active,
                    clip_id: Some(clip_id),
                };
                let parts: PlacedParts = (take, Some(clip), None);
                assert(parts_view(parts).take == take_for(inp, track@, i as int, ("midi-clip:"@ + tid@)));
                Some(parts)
            },
        }
    } else {
        let asset = if source.outputs.processed.is_some() { copy_opt_id(&source.outputs.processed) } else { copy_opt_id(&source.outputs.raw) };
        match (asset, source.audio_source) {
            (Some(asset_id), Some((sample_rate, frames))) => {
                let start = saturating_mul(frames, seg.relative_start_tick) / total;
                let end0 = saturating_mul(frames, seg.relative_end_tick) / total;
                let next: u64 = if start < u64::MAX { start + 1 } else { u64::MAX };
                let end1: u64 = if end0 >= next { end0 } else { next };
                let end: u64 = if end1 <= frames { end1 } else { frames };
                if end <= start {
                    None
                } else {
                    let clip_id = concat2("clip:", tid.as_str());
                    let plan = AudioClipPlan {
                        clip_id: clip_id.clone(),
                        track_id: track.id.clone(),
                        asset_id,
                        start_tick: seg.start_tick,
                        sample_rate,
                        source_start: start,
                        source_end: end,
                        muted: !active,
                    };
                    let take = RecordingTakeRecord {
                        id: tid,
                        session_id: source.recording_id.clone(),
                        track_id: track.id.clone(),
                        start_tick: seg.start_tick,
                        duration_ticks: seg.duration_ticks,
                        raw_audio_asset_id: copy_opt_id(&source.outputs.raw),
                        processed_audio_asset_id: copy_opt_id(&source.outputs.processed),
                        midi_asset_id: copy_opt_id(&source.outputs.midi),
                        active_variant: variant,
                        active,
                        clip_id: Some(clip_id),
                    };
                    let parts: PlacedParts = (take, None, Some(plan));
                    assert(parts_view(parts).take == take_for(inp, track@, i as int, ("clip:"@ + tid@)));
                    Some(parts)
                }
            },
            _ => None,
        }
    }
}

proof fn lemma_takes_of_len(s: Seq<Placed>)
    ensures
        takes_of(s).len() == s.len(),
        s.len() == 0 ==> audio_clips_of(s).len() == 0,
    decreases s.len(),
{
    if s.len() > 0 {
        lemma_takes_of_len(s.drop_last());
    }
}

proof fn lemma_unplaced_track(inp: PlacementInput, j: int, n: int)
    requires
        first_track(inp.tracks, inp.armed[j], inp.tracks.len() as int) < 0,
    ensures
        placed_for_track(inp, j, n) == Seq::<Placed>::empty(),
    decreases n,
{
    if n > 0 {
        lemma_unplaced_track(inp, j, n - 1);
    }
}

pub open spec fn ids_of(takes: Seq<TakeView>) -> Seq<Seq<char>> {
    takes.map_values(|t: TakeView| t.id)
}

/// Everything after placing the takes of one pass.
spec fn placed_so_far(
    timeline: RecordedTimeline,
    old_takes: Seq<TakeView>,
    old_clips: Seq<ClipView>,
    plans: Seq<AudioClipPlan>,
    take_ids: Seq<String>,
    end_tick: u64,
    start: u64,
    done: Seq<Placed>,
) -> bool {
    &&& takes_view(timeline.takes@) == old_takes + takes_of(done)
    &&& clips_view(timeline.midi_clips@) == old_clips + midi_clips_of(done)
    &&& plans_view(plans) == audio_clips_of(done)
    &&& strings_view(take_ids) == ids_of(takes_of(done))
    &&& end_tick == latest_end(done, start)
}

/// Places a finished recording on the arrangement: the takes of every
/// armed track and pass (see `placed_on`) are added with their MIDI clips,
/// and gathered in their recording session (see `merge_session`), and the
/// arrangement revision advances. The audio clips to add are returned.
/// When nothing can be placed the arrangement is left as it was.
#[verifier::rlimit(60)]
pub fn place_recording_on_timeline(
    timeline: &mut RecordedTimeline,
    tracks: &Vec<TrackRef>,
    loop_range: TimelineLoopRange,
    source: &TakeSource,
) -> (audio_clips: Vec<AudioClipPlan>)
    ensures
        ({
            let inp = placement_input(tracks@, loop_range, *source);
            let placed = all_placed(inp);
            let takes = takes_view(old(timeline).takes@) + takes_of(placed);
            let take_ids = ids_of(takes_of(placed));
            &&& plans_view(audio_clips@) == audio_clips_of(placed)
            &&& placed.len() == 0 ==> {
                &&& takes_view(final(timeline).takes@) == takes_view(old(timeline).takes@)
                &&& clips_view(final(timeline).midi_clips@) == clips_view(old(timeline).midi_clips@)
                &&& sessions_view(final(timeline).recording_sessions@) == sessions_view(old(timeline).recording_sessions@)
                &&& final(timeline).revision == old(timeline).revision
            }
            &&& placed.len() > 0 ==> {
                &&& takes_view(final(timeline).takes@) == takes
                &&& clips_view(final(timeline).midi_clips@) == clips_view(old(timeline).midi_clips@) + midi_clips_of(placed)
                &&& sessions_view(final(timeline).recording_sessions@) == merge_session(
                    sessions_view(old(timeline).recording_sessions@),
                    inp.recording_id,
                    source.start_tick.0,
                    latest_end(placed, source.start_tick.0) as u64,
                    tracks_of_takes(takes, take_ids),
                    source.loop_recording,
                    take_ids,
                )
                &&& final(timeline).revision == min_int(old(timeline).revision + 1, u64::MAX as int)
            }
        }),
{
    let total = total_duration(source.audio_duration_ticks, &source.midi_source);
    let segments = recording_segments(source.start_tick, total, source.loop_recording, loop_range);
    let ghost inp = placement_input(tracks@, loop_range, *source);
    let ghost old_takes = takes_view(timeline.takes@);
    let ghost old_clips = clips_view(timeline.midi_clips@);
    let ghost old_sessions = sessions_view(timeline.recording_sessions@);
    let ghost old_revision = timeline.revision;
    let start = source.start_tick.0;
    let mut plans: Vec<AudioClipPlan> = Vec::new();
    let mut take_ids: Vec<String> = Vec::new();
    let mut end_tick: u64 = start;
    let mut j: usize = 0;
    assert(inp.segments == segments@);
    proof {
        let e = placed_upto(inp, 0);
        assert(e =~= Seq::<Placed>::empty());
        assert(takes_view(timeline.takes@) =~= old_takes + takes_of(e));
        assert(clips_view(timeline.midi_clips@) =~= old_clips + midi_clips_of(e));
        assert(plans_view(plans@) =~= audio_clips_of(e));
        assert(strings_view(take_ids@) =~= ids_of(takes_of(e)));
    }
    while j < source.armed_track_ids.len()
        invariant
            j <= source.armed_track_ids.len(),
            inp == placement_input(tracks@, loop_range, *source),
            inp.segments == segments@,
            inp.total == total as int,
            total >= 1,
            start == source.start_tick.0,
            placed_so_far(*timeline, old_takes, old_clips, plans@, take_ids@, end_tick, start, placed_upto(inp, j as int)),
            sessions_view(timeline.recording_sessions@) == old_sessions,
            timeline.revision == old_revision,
        decreases source.armed_track_ids.len() - j,
    {
        assert(strings_view(source.armed_track_ids@)[j as int] == source.armed_track_ids@[j as int]@);
        let found = find_track(tracks, source.armed_track_ids[j].as_str());
        match found {
            None => {
                proof {
                    lemma_unplaced_track(inp, j as int, segments.len() as int);
                    assert(placed_upto(inp, j as int + 1) =~= placed_upto(inp, j as int));
                }
            },
            Some(p) => {
                assert(tracks_view(tracks@)[p as int] == tracks@[p as int]@);
                let mut i: usize = 0;
                assert(placed_upto(inp, j as int) + placed_for_track(inp, j as int, 0) =~= placed_upto(inp, j as int));
                while i < segments.len()
                    invariant
                        i <= segments.len(),
                        j < source.armed_track_ids.len(),
                        p < tracks.len(),
                        p as int == first_track(inp.tracks, inp.armed[j as int], inp.tracks.len() as int),
                        inp.tracks[p as int] == tracks@[p as int]@,
                        inp == placement_input(tracks@, loop_range, *source),
                        inp.segments == segments@,
                        inp.total == total as int,
                        total >= 1,
                        start == source.start_tick.0,
                        placed_so_far(*timeline, old_takes, old_clips, plans@, take_ids@, end_tick, start,
                            placed_upto(inp, j as int) + placed_for_track(inp, j as int, i as int)),
                        sessions_view(timeline.recording_sessions@) == old_sessions,
                        timeline.revision == old_revision,
                    decreases segments.len() - i,
                {
                    let ghost done = placed_upto(inp, j as int) + placed_for_track(inp, j as int, i as int);
                    match place_one(source, &segments, total, &tracks[p], i, Ghost(inp)) {
                        Some(parts) => {
                            let ghost x = parts_view(parts);
                            let (take, midi_clip, audio_plan) = parts;
                            assert(done.push(x) =~= placed_upto(inp, j as int) + placed_for_track(inp, j as int, i as int + 1));
                            assert(done.push(x).drop_last() =~= done);
                            let ghost before_takes = takes_view(timeline.takes@);
                            let ghost before_ids = strings_view(take_ids@);
                            let take_end: u64 = match take.start_tick.0.checked_add(take.duration_ticks) {
                                Some(e) => e,
                                None => u64::MAX,
                            };
                            if take_end > end_tick {
                                end_tick = take_end;
                            }
                            take_ids.push(take.id.clone());
                            timeline.takes.push(take);
                            assert(takes_view(timeline.takes@) =~= before_takes.push(x.take));
                            assert(strings_view(take_ids@) =~= before_ids.push(x.take.id));
                            assert(ids_of(takes_of(done).push(x.take)) =~= ids_of(takes_of(done)).push(x.take.id));
                            match midi_clip {
                                Some(c) => {
                                    let ghost before = clips_view(timeline.midi_clips@);
                                    timeline.midi_clips.push(c);
                                    assert(clips_view(timeline.midi_clips@) =~= before.push(x.midi_clip.unwrap()));
                                },
                                None => {},
                            }
                            match audio_plan {
                                Some(a) => {
                                    let ghost before = plans_view(plans@);
                                    plans.push(a);
                                    assert(plans_view(plans@) =~= before.push(x.audio_clip.unwrap()));
                                },
                                None => {},
                            }
                        },
                        None => {
                            assert(done =~= placed_upto(inp, j as int) + placed_for_track(inp, j as int, i as int + 1));
                        },
                    }
                    i += 1;
                }
            },
        }
        j += 1;
    }
    let ghost placed = placed_upto(inp, source.armed_track_ids.len() as int);
    assert(placed == all_placed(inp));
    proof {
        lemma_takes_of_len(placed);
    }
    if take_ids.len() == 0 {
        proof {
            assert(ids_of(takes_of(placed)).len() == 0);
            assert(placed.len() == 0);
            assert(takes_of(placed) =~= Seq::<TakeView>::empty());
            assert(midi_clips_of(placed) =~= Seq::<ClipView>::empty());
            assert(takes_view(timeline.takes@) =~= old_takes);
            assert(clips_view(timeline.midi_clips@) =~= old_clips);
        }
        return plans;
    }
    let ghost takes_all = takes_view(timeline.takes@);
    let mut new_track_ids: Vec<String> = Vec::new();
    let mut k: usize = 0;
    while k < timeline.takes.len()
        invariant
            k <= timeline.takes.len(),
            takes_all == takes_view(timeline.takes@),
            strings_view(new_track_ids@) == tracks_of_takes(takes_all.take(k as int), strings_view(take_ids@)),
        decreases timeline.takes.len() - k,
    {
        assert(takes_all.take(k as int + 1).drop_last() =~= takes_all.take(k as int));
        assert(takes_all[k as int] == timeline.takes@[k as int]@);
        if contains_str(&take_ids, timeline.takes[k].id.as_str()) {
            let ghost before = strings_view(new_track_ids@);
            new_track_ids.push(timeline.takes[k].track_id.clone());
            assert(strings_view(new_track_ids@) =~= before.push(takes_all[k as int].track_id));
        }
        k += 1;
    }
    assert(takes_all.take(timeline.takes.len() as int) =~= takes_all);
    let ghost track_list = strings_view(new_track_ids@);
    let ghost id_list = strings_view(take_ids@);
    let mut found: Option<usize> = None;
    let mut q: usize = 0;
    while q < timeline.recording_sessions.len() && found.is_none()
        invariant
            q <= timeline.recording_sessions.len(),
            old_sessions == sessions_view(timeline.recording_sessions@),
            found is None ==> first_session(old_sessions, source.recording_id@, q as int) == -1,
            found matches Some(f) ==> f < timeline.recording_sessions.len()
                && f as int == first_session(old_sessions, source.recording_id@, timeline.recording_sessions.len() as int),
        decreases timeline.recording_sessions.len() - q + (if found is None { 1int } else { 0int }),
    {
        assert(old_sessions[q as int] == timeline.recording_sessions@[q as int]@);
        if str_eq(timeline.recording_sessions[q].id.as_str(), source.recording_id.as_str()) {
            proof { lemma_first_session_stable(old_sessions, source.recording_id@, q as int, timeline.recording_sessions.len() as int); }
            found = Some(q);
        } else {
            q += 1;
        }
    }
    match found {
        Some(f) => {
            let mut session = timeline.recording_sessions.remove(f);
            let ghost s0 = session@;
            assert(old_sessions[f as int] == s0);
            if start < session.start_tick.0 {
                session.start_tick = TimelineTick(start);
            }
            if end_tick > session.end_tick.0 {
                session.end_tick = TimelineTick(end_tick);
            }
            session.loop_recording = session.loop_recording || source.loop_recording;
            let mut t: usize = 0;
            assert(track_list.take(0) =~= Seq::<Seq<char>>::empty());
            while t < new_track_ids.len()
                invariant
                    t <= new_track_ids.len(),
                    track_list == strings_view(new_track_ids@),
                    strings_view(session.track_ids@) == append_missing(s0.track_ids, track_list.take(t as int)),
                    strings_view(session.take_ids@) == s0.take_ids,
                    session.id@ == s0.id,
                    session.start_tick.0 == min_int(s0.start as int, start as int),
                    session.end_tick.0 == max_int(s0.end as int, end_tick as int),
                    session.loop_recording == (s0.loop_recording || source.loop_recording),

                decreases new_track_ids.len() - t,
            {
                assert(track_list.take(t as int + 1).drop_last() =~= track_list.take(t as int));
                assert(track_list[t as int] == new_track_ids@[t as int]@);
                if !contains_str(&session.track_ids, new_track_ids[t].as_str()) {
                    let ghost before = strings_view(session.track_ids@);
                    session.track_ids.push(new_track_ids[t].clone());
                    assert(strings_view(session.track_ids@) =~= before.push(track_list[t as int]));
                }
                t += 1;
            }
            assert(track_list.take(new_track_ids.len() as int) =~= track_list);
            let mut u: usize = 0;
            assert(s0.take_ids + id_list.take(0) =~= s0.take_ids);
            while u < take_ids.len()
                invariant
                    u <= take_ids.len(),
                    id_list == strings_view(take_ids@),
                    strings_view(session.take_ids@) == s0.take_ids + id_list.take(u as int),
                    strings_view(session.track_ids@) == append_missing(s0.track_ids, track_list),
                    session.id@ == s0.id,
                    session.start_tick.0 == min_int(s0.start as int, start as int),
                    session.end_tick.0 == max_int(s0.end as int, end_tick as int),
                    session.loop_recording == (s0.loop_recording || source.loop_recording),

                decreases take_ids.len() - u,
            {
                let ghost before = strings_view(session.take_ids@);
                session.take_ids.push(take_ids[u].clone());
                assert(strings_view(session.take_ids@) =~= before.push(id_list[u as int]));
                assert(s0.take_ids + id_list.take(u as int + 1) =~= (s0.take_ids + id_list.take(u as int)).push(id_list[u as int]));
                u += 1;
            }
            assert(id_list.take(take_ids.len() as int) =~= id_list);
            let ghost before_insert = timeline.recording_sessions@;
            let ghost merged = SessionView {
                id: s0.id,
                start: min_int(s0.start as int, start as int) as u64,
                end: max_int(s0.end as int, end_tick as int) as u64,
                track_ids: append_missing(s0.track_ids, track_list),
                loop_recording: s0.loop_recording || source.loop_recording,
                take_ids: s0.take_ids + id_list,
            };
            assert(session@ == merged);
            timeline.recording_sessions.insert(f, session);
            proof {
                let full = before_insert.insert(f as int, session);
                assert(timeline.recording_sessions@ == full);
                assert(sessions_view(full) =~= old_sessions.update(f as int, merged));
                assert(first_session(old_sessions, source.recording_id@, old_sessions.len() as int) == f as int);
            }
            assert(sessions_view(timeline.recording_sessions@) =~= merge_session(
                old_sessions, source.recording_id@, start, end_tick, track_list, source.loop_recording, id_list));
        },
        None => {
            let session = RecordingSessionRecord {
                id: source.recording_id.clone(),
                start_tick: TimelineTick(start),
                end_tick: TimelineTick(end_tick),
                track_ids: new_track_ids,
                loop_recording: source.loop_recording,
                take_ids,
            };
            let ghost before = sessions_view(timeline.recording_sessions@);
            timeline.recording_sessions.push(session);
            assert(sessions_view(timeline.recording_sessions@) =~= before.push(session@));
        },
    }
    timeline.revision = if timeline.revision < u64::MAX { timeline.revision + 1 } else { u64::MAX };
    plans
}

proof fn lemma_first_session_stable(sessions: Seq<SessionView>, id: Seq<char>, i: int, n: int)
    requires
        0 <= i < n,
        first_session(sessions, id, i) == -1,
        sessions[i].id == id,
    ensures
        first_session(sessions, id, n) == i,
    decreases n,
{
    if n > i + 1 {
        lemma_first_session_stable(sessions, id, i, n - 1);
    }
}

/// The recording session of a capture: the one it names, else one named
/// after its take directory.
pub fn recording_session_id(capture_session_id: Option<String>, directory: &str) -> (id: String)
    ensures
        id@ == match capture_session_id {
            Some(s) => s@,
            None => "recording-session:"@ + directory@,
        },
{
    match capture_session_id {
        Some(s) => s,
        None => concat2("recording-session:", directory),
    }
}

/// Sample rate and number of whole frames of recorded audio; an error when
/// a frame holds no byte or the sample rate is zero.
pub fn recorded_audio_frames(wav: &WavData) -> (r: Result<(u32, u64), String>)
    ensures
        ({
            let frame_bytes = (wav.bits_per_sample / 8) as int * wav.channels as int;
            match r {
                Ok((rate, frames)) => frame_bytes != 0 && wav.sample_rate != 0 && rate == wav.sample_rate
                    && frames as int == wav.data_len as int / frame_bytes,
                Err(m) => (frame_bytes == 0 || wav.sample_rate == 0) && m@ == "Recorded audio has an invalid frame format."@,
            }
        }),
{
    let per_sample: u64 = (wav.bits_per_sample / 8) as u64;
    assert(per_sample * (wav.channels as u64) <= 0xffff * 0xffff) by (nonlinear_arith)
        requires per_sample <= 0xffff, wav.channels <= 0xffff;
    let frame_bytes: u64 = per_sample * (wav.channels as u64);
    if frame_bytes == 0 || wav.sample_rate == 0 {
        return Err(to_string("Recorded audio has an invalid frame format."));
    }
    Ok((wav.sample_rate, (wav.data_len as u64) / frame_bytes))
}

} // verus!
