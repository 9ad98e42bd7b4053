//! Offline render of the timeline: which clips are heard, where each one
//! lands in frames, the range rendered, and the result of a render.
//!
//! Sources must be PCM (8, 16, 24 or 32 bits) or 32-bit float WAV and share
//! one sample rate; a render covers at most thirty minutes. A looped clip
//! repeats its source range for its whole length; other clips stop where
//! their source range ends. The sample mixing itself is the host's.

use vstd::prelude::*;
use crate::text::{concat2, concat3, to_string, u64_to_decimal, decimal, str_eq};
use crate::wav::WavData;

verus! {

broadcast use vstd::string::group_string_axioms;

/// Longest render, in minutes.
pub const MAX_RENDER_MINUTES: u64 = 30;

/// The range to render and whether to normalize it.
#[derive(Clone, Copy, Debug, PartialEq, Eq, Structural)]
pub struct RenderOptions {
    pub range_start_ms: u64,
    pub range_end_ms: Option<u64>,
    pub normalize: bool,
}

impl Default for RenderOptions {
    /// The whole timeline, not normalized.
    fn default() -> (o: RenderOptions)
        ensures
            o == (RenderOptions { range_start_ms: 0, range_end_ms: None, normalize: false }),
    {
        RenderOptions { range_start_ms: 0, range_end_ms: None, normalize: false }
    }
}

/// The outcome of a render.
pub struct RenderResult {
    pub id: String,
    pub path: String,
    pub sample_rate: u32,
    pub frames: u64,
    pub duration_ms: u64,
    pub clip_count: usize,
    pub range_start_ms: u64,
    pub range_end_ms: u64,
    pub normalized: bool,
    pub state: String,
    pub message: String,
}

/// What the render reads of a track.
pub struct RenderTrack {
    pub id: String,
    pub muted: bool,
    pub solo: bool,
}

/// What the render reads of a timeline clip.
pub struct RenderClip {
    pub name: String,
    pub track_id: String,
    pub muted: bool,
    pub start_ms: u64,
    pub duration_ms: u64,
    pub source_in_ms: u64,
    pub source_out_ms: u64,
    pub loop_enabled: bool,
}

pub open spec fn any_solo(tracks: Seq<RenderTrack>) -> bool {
    exists|k: int| 0 <= k < tracks.len() && (#[trigger] tracks[k]).solo
}

/// The first track with id `id` among the first `n`, or -1.
pub open spec fn track_of(tracks: Seq<RenderTrack>, id: Seq<char>, n: int) -> int
    decreases n,
{
    if n <= 0 {
        -1
    } else {
        let p = track_of(tracks, id, n - 1);
        if p >= 0 { p } else if tracks[n - 1].id@ == id { n - 1 } else { -1 }
    }
}

/// A clip is heard when it is not muted and its track (if it has one) is
/// not muted and, when any track is soloed, is soloed itself.
pub open spec fn clip_audible(tracks: Seq<RenderTrack>, clip: RenderClip) -> bool {
    let p = track_of(tracks, clip.track_id@, tracks.len() as int);
    !clip.muted && (p < 0 || (!tracks[p].muted && (!any_solo(tracks) || tracks[p].solo)))
}

pub open spec fn audible_upto(tracks: Seq<RenderTrack>, clips: Seq<RenderClip>, n: int) -> Seq<int>
    decreases n,
{
    if n <= 0 {
        seq![]
    } else {
        let before = audible_upto(tracks, clips, n - 1);
        if clip_audible(tracks, clips[n - 1]) { before.push(n - 1) } else { before }
    }
}

proof fn lemma_track_of_stable(tracks: Seq<RenderTrack>, id: Seq<char>, i: int, n: int)
    requires
        0 <= i < n,
        track_of(tracks, id, i + 1) == i,
    ensures
        track_of(tracks, id, n) == i,
    decreases n,
{
    if n > i + 1 {
        lemma_track_of_stable(tracks, id, i, n - 1);
    }
}

/// `track_of` finds the first track with the id: when `t` is the first
/// such track among the first `n`, it is `t`; when none has it, -1.
proof fn lemma_track_of_first(tracks: Seq<RenderTrack>, id: Seq<char>, n: int)
    requires
        0 <= n <= tracks.len(),
    ensures
        track_of(tracks, id, n) == -1 <==> (forall|j: int| 0 <= j < n ==> (#[trigger] tracks[j]).id@ != id),
        track_of(tracks, id, n) >= 0 ==> {
            &&& track_of(tracks, id, n) < n
            &&& tracks[track_of(tracks, id, n)].id@ == id
            &&& forall|j: int| 0 <= j < track_of(tracks, id, n) ==> (#[trigger] tracks[j]).id@ != id
        },
    decreases n,
{
    if n > 0 {
        lemma_track_of_first(tracks, id, n - 1);
    }
}

proof fn lemma_audible_upto(tracks: Seq<RenderTrack>, clips: Seq<RenderClip>, n: int)
    requires
        0 <= n <= clips.len(),
    ensures
        forall|i: int| 0 <= i < audible_upto(tracks, clips, n).len() ==> {
            &&& 0 <= #[trigger] audible_upto(tracks, clips, n)[i] < n
            &&& clip_audible(tracks, clips[audible_upto(tracks, clips, n)[i]])
        },
        forall|i: int, j: int| 0 <= i < j < audible_upto(tracks, clips, n).len()
            ==> #[trigger] audible_upto(tracks, clips, n)[i] < #[trigger] audible_upto(tracks, clips, n)[j],
        forall|x: int| 0 <= x < n && clip_audible(tracks, #[trigger] clips[x]) ==> audible_upto(tracks, clips, n).contains(x),
    decreases n,
{
    if n > 0 {
        lemma_audible_upto(tracks, clips, n - 1);
        let before = audible_upto(tracks, clips, n - 1);
        let all = audible_upto(tracks, clips, n);
        assert forall|x: int| 0 <= x < n && clip_audible(tracks, #[trigger] clips[x]) implies all.contains(x) by {
            if x < n - 1 {
                let w = choose|w: int| 0 <= w < before.len() && before[w] == x;
                assert(all[w] == x);
            } else {
                assert(all[all.len() - 1] == x);
            }
        }
    }
}

/// Which clips a render hears, in timeline order: exactly the clips that
/// are not muted and whose track (the first track with the clip's track id,
/// when there is one) is not muted and, when any track is soloed, is soloed
/// itself. A clip on a track that no track names is heard when it is not
/// muted.
pub proof fn law_heard_clips_follow_mute_and_solo(tracks: Seq<RenderTrack>, clips: Seq<RenderClip>)
    ensures
        ({
            let heard = audible_upto(tracks, clips, clips.len() as int);
            let follows = |x: int| {
                &&& !clips[x].muted
                &&& forall|t: int| 0 <= t < tracks.len() && tracks[t].id@ == clips[x].track_id@
                    && (forall|j: int| 0 <= j < t ==> (#[trigger] tracks[j]).id@ != clips[x].track_id@)
                    ==> !(#[trigger] tracks[t]).muted
                        && ((forall|s: int| 0 <= s < tracks.len() ==> !(#[trigger] tracks[s]).solo) || tracks[t].solo)
            };
            &&& forall|i: int| 0 <= i < heard.len() ==> 0 <= #[trigger] heard[i] < clips.len() && follows(heard[i])
            &&& forall|x: int| 0 <= x < clips.len() && #[trigger] follows(x) ==> heard.contains(x)
            &&& forall|i: int, j: int| 0 <= i < j < heard.len() ==> #[trigger] heard[i] < #[trigger] heard[j]
        }),
{
    let n = clips.len() as int;
    lemma_audible_upto(tracks, clips, n);
    let heard = audible_upto(tracks, clips, n);
    assert forall|x: int| 0 <= x < n implies (clip_audible(tracks, #[trigger] clips[x]) <==> {
        &&& !clips[x].muted
        &&& forall|t: int| 0 <= t < tracks.len() && tracks[t].id@ == clips[x].track_id@
            && (forall|j: int| 0 <= j < t ==> (#[trigger] tracks[j]).id@ != clips[x].track_id@)
            ==> !(#[trigger] tracks[t]).muted
                && ((forall|s: int| 0 <= s < tracks.len() ==> !(#[trigger] tracks[s]).solo) || tracks[t].solo)
    }) by {
        let id = clips[x].track_id@;
        lemma_track_of_first(tracks, id, tracks.len() as int);
        let p = track_of(tracks, id, tracks.len() as int);
        if p >= 0 {
            assert forall|t: int| 0 <= t < tracks.len() && tracks[t].id@ == id
                && (forall|j: int| 0 <= j < t ==> (#[trigger] tracks[j]).id@ != id) implies t == p by {
                if t < p {
                    assert(tracks[t].id@ != id);
                } else if t > p {
                    assert(tracks[p].id@ != id);
                }
            }
        }
        if any_solo(tracks) {
            let k = choose|k: int| 0 <= k < tracks.len() && (#[trigger] tracks[k]).solo;
            assert(tracks[k].solo);
        }
    }
}

fn find_track(tracks: &Vec<RenderTrack>, id: &str) -> (p: Option<usize>)
    ensures
        match p {
            Some(i) => i < tracks.len() && i as int == track_of(tracks@, id@, tracks.len() as int),
            None => track_of(tracks@, id@, tracks.len() as int) == -1,
        },
{
    let mut i: usize = 0;
    while i < tracks.len()
        invariant
            i <= tracks.len(),
            track_of(tracks@, id@, i as int) == -1,
        decreases tracks.len() - i,
    {
        if str_eq(tracks[i].id.as_str(), id) {
            proof { lemma_track_of_stable(tracks@, id@, i as int, tracks.len() as int); }
            return Some(i);
        }
        i += 1;
    }
    None
}

/// The positions of the clips that are heard, in timeline order.
pub fn audible_clips(tracks: &Vec<RenderTrack>, clips: &Vec<RenderClip>) -> (indices: Vec<usize>)
    ensures
        indices@.map_values(|i: usize| i as int) == audible_upto(tracks@, clips@, clips.len() as int),
{
    let mut has_solo = false;
    let mut k: usize = 0;
    while k < tracks.len()
        invariant
            k <= tracks.len(),
            has_solo == exists|j: int| 0 <= j < k && (#[trigger] tracks@[j]).solo,
        decreases tracks.len() - k,
    {
        if tracks[k].solo {
            has_solo = true;
        }
        k += 1;
    }
    let mut indices: Vec<usize> = Vec::new();
    let mut i: usize = 0;
    while i < clips.len()
        invariant
            i <= clips.len(),
            has_solo == any_solo(tracks@),
            indices@.map_values(|x: usize| x as int) == audible_upto(tracks@, clips@, i as int),
        decreases clips.len() - i,
    {
        let clip = &clips[i];
        let heard = if clip.muted {
            false
        } else {
            match find_track(tracks, clip.track_id.as_str()) {
                None => true,
                Some(p) => !tracks[p].muted && (!has_solo || tracks[p].solo),
            }
        };
        if heard {
            let ghost before = indices@.map_values(|x: usize| x as int);
            indices.push(i);
            assert(indices@.map_values(|x: usize| x as int) =~= before.push(i as int));
        }
        i += 1;
    }
    indices
}

pub open spec fn supported_bits(bits: u16) -> bool {
    bits == 8 || bits == 16 || bits == 24 || bits == 32
}

/// Checks that a source can be rendered: some channels, PCM or float, a
/// supported sample width, and 32 bits when float.
pub fn check_render_source(name: &str, wav: &WavData) -> (r: Result<(), String>)
    ensures
        wav.channels == 0 || !(wav.format == 1 || wav.format == 3) || !supported_bits(wav.bits_per_sample) ==> (r matches Err(e)
            && e@ == "Timeline source '"@ + name@ + "' is not a supported PCM WAV."@),
        !(wav.channels == 0 || !(wav.format == 1 || wav.format == 3) || !supported_bits(wav.bits_per_sample)) ==> (
            if wav.format == 3 && wav.bits_per_sample != 32 {
                r matches Err(e) && e@ == "Timeline source '"@ + name@ + "' uses an unsupported float width."@
            } else {
                r is Ok
            }),
{
    let bits = wav.bits_per_sample;
    if wav.channels == 0 || !(wav.format == 1 || wav.format == 3) || !(bits == 8 || bits == 16 || bits == 24 || bits == 32) {
        return Err(concat3("Timeline source '", name, "' is not a supported PCM WAV."));
    }
    if wav.format == 3 && bits != 32 {
        return Err(concat3("Timeline source '", name, "' uses an unsupported float width."));
    }
    Ok(())
}

pub open spec fn sat_mul(a: u64, b: u64) -> u64 {
    if a * b > u64::MAX { u64::MAX } else { (a * b) as u64 }
}

/// Milliseconds to frames at `rate`, rounding down; the product saturates.
pub open spec fn frames_at(ms: u64, rate: u32) -> u64 {
    (sat_mul(ms, rate as u64) / 1000) as u64
}

fn frames_of(ms: u64, rate: u32) -> (f: u64)
    ensures
        f == frames_at(ms, rate),
{
    match ms.checked_mul(rate as u64) {
        Some(v) => v / 1000,
        None => u64::MAX / 1000,
    }
}

/// Where a clip lands, in frames.
#[derive(Clone, Copy, Debug, PartialEq, Eq, Structural)]
pub struct ClipSpan {
    pub start_frame: u64,
    pub duration_frames: u64,
    pub source_in_frame: u64,
    pub source_out_frame: u64,
    pub available_frames: u64,
    pub audible_frames: u64,
}

pub open spec fn min_u64(a: u64, b: u64) -> u64 {
    if a <= b { a } else { b }
}

/// The span of a clip in a source of `source_frames` frames at `rate`: its
/// source range ends at its out point (the source's end when it has none,
/// and never past it); a looped clip is heard for its whole length, other
/// clips at most for their source range.
pub open spec fn clip_span_spec(clip: RenderClip, rate: u32, source_frames: u64) -> ClipSpan {
    let source_in = frames_at(clip.source_in_ms, rate);
    let source_out = min_u64(if clip.source_out_ms == 0 { source_frames } else { frames_at(clip.source_out_ms, rate) }, source_frames);
    let available = (source_out - min_u64(source_in, source_out)) as u64;
    let duration = frames_at(clip.duration_ms, rate);
    ClipSpan {
        start_frame: frames_at(clip.start_ms, rate),
        duration_frames: duration,
        source_in_frame: source_in,
        source_out_frame: source_out,
        available_frames: available,
        audible_frames: if clip.loop_enabled { duration } else { min_u64(duration, available) },
    }
}

/// The span of a clip; see `clip_span_spec`.
pub fn clip_span(clip: &RenderClip, rate: u32, source_frames: u64) -> (s: ClipSpan)
    ensures
        s == clip_span_spec(*clip, rate, source_frames),
{
    let source_in = frames_of(clip.source_in_ms, rate);
    let out0 = if clip.source_out_ms == 0 { source_frames } else { frames_of(clip.source_out_ms, rate) };
    let source_out = if out0 <= source_frames { out0 } else { source_frames };
    let lower = if source_in <= source_out { source_in } else { source_out };
    let available = source_out - lower;
    let duration = frames_of(clip.duration_ms, rate);
    ClipSpan {
        start_frame: frames_of(clip.start_ms, rate),
        duration_frames: duration,
        source_in_frame: source_in,
        source_out_frame: source_out,
        available_frames: available,
        audible_frames: if clip.loop_enabled { duration } else if duration <= available { duration } else { available },
    }
}

/// What the render covers.
pub struct RenderPlan {
    pub sample_rate: u32,
    pub total_frames: u64,
    pub start_frame: u64,
    pub end_frame: u64,
    pub output_frames: u64,
    pub spans: Vec<ClipSpan>,
}

/// Whole frames of a source.
pub open spec fn source_frames_of(wav: WavData) -> u64 {
    ((wav.data_len as int) / ((wav.bits_per_sample / 8) as int * wav.channels as int)) as u64
}

pub open spec fn source_ok(wav: WavData) -> bool {
    wav.channels != 0 && (wav.format == 1 || wav.format == 3) && supported_bits(wav.bits_per_sample)
        && !(wav.format == 3 && wav.bits_per_sample != 32)
}

proof fn lemma_scan_error_persists(clips: Seq<RenderClip>, sources: Seq<Result<WavData, String>>, j: int, m: Seq<char>)
    requires
        0 <= j <= clips.len(),
        scan_sources(clips, sources, j) == Err::<(Option<u32>, u64), Seq<char>>(m),
    ensures
        scan_sources(clips, sources, clips.len() as int) == Err::<(Option<u32>, u64), Seq<char>>(m),
    decreases clips.len() - j,
{
    if j < clips.len() {
        lemma_scan_error_persists(clips, sources, j + 1, m);
    }
}

/// Why a source cannot be rendered, if it cannot (see `check_render_source`).
pub open spec fn source_error(name: Seq<char>, wav: WavData) -> Option<Seq<char>> {
    if wav.channels == 0 || !(wav.format == 1 || wav.format == 3) || !supported_bits(wav.bits_per_sample) {
        Some("Timeline source '"@ + name + "' is not a supported PCM WAV."@)
    } else if wav.format == 3 && wav.bits_per_sample != 32 {
        Some("Timeline source '"@ + name + "' uses an unsupported float width."@)
    } else {
        None
    }
}

/// `a + b`, saturating at the largest `u64`.
pub open spec fn sat_add(a: u64, b: u64) -> u64 {
    if a + b > u64::MAX { u64::MAX } else { (a + b) as u64 }
}

/// The first `k` sources read in turn: the first one's sample rate and the
/// frame where the last of their clips stops being heard, or the first
/// failure (a source that could not be read or parsed, an unsupported one,
/// or one at another sample rate).
pub open spec fn scan_sources(clips: Seq<RenderClip>, sources: Seq<Result<WavData, String>>, k: int)
    -> Result<(Option<u32>, u64), Seq<char>>
    decreases k,
{
    if k <= 0 {
        Ok((None, 0))
    } else {
        match scan_sources(clips, sources, k - 1) {
            Err(e) => Err(e),
            Ok((rate, total)) => match sources[k - 1] {
                Err(e) => Err(e@),
                Ok(w) => match source_error(clips[k - 1].name@, w) {
                    Some(e) => Err(e),
                    None => if rate is Some && rate != Some(w.sample_rate) {
                        Err("Timeline sources must share one sample rate before offline render."@)
                    } else {
                        let span = clip_span_spec(clips[k - 1], w.sample_rate, source_frames_of(w));
                        let end = sat_add(span.start_frame, span.audible_frames);
                        Ok((Some(w.sample_rate), if end > total { end } else { total }))
                    },
                },
            },
        }
    }
}

/// The outcome of planning a render: the sample rate, the timeline length
/// and the rendered range in frames, or why there is nothing to render.
pub open spec fn render_plan_spec(clips: Seq<RenderClip>, sources: Seq<Result<WavData, String>>, options: RenderOptions)
    -> Result<(u32, u64, u64, u64), Seq<char>>
{
    if clips.len() == 0 {
        Err("Timeline has no audible clips to render."@)
    } else {
        match scan_sources(clips, sources, clips.len() as int) {
            Err(e) => Err(e),
            Ok((None, _)) => Err("Timeline has no renderable sources."@),
            Ok((Some(rate), total)) => {
                if total == 0 || total > sat_mul(rate as u64, 1800u64) {
                    Err("Timeline render is limited to 30 minutes."@)
                } else {
                    let start = frames_at(options.range_start_ms, rate);
                    let requested = match options.range_end_ms {
                        Some(e) => if e > options.range_start_ms { frames_at(e, rate) } else { total },
                        None => total,
                    };
                    let end = if requested <= total { requested } else { total };
                    if start >= end {
                        Err("Render range does not overlap the audible timeline."@)
                    } else {
                        Ok((rate, total, start, end))
                    }
                }
            },
        }
    }
}

/// The render of the heard clips: the sources (as read and parsed, in
/// timeline order) must all be supported and share the first one's sample
/// rate; the timeline ends where the last clip stops being heard and may
/// last at most thirty minutes; the range runs from the requested start to
/// the requested end (the timeline's end when none is given after the
/// start), never past the timeline's end, and must not be empty.
pub fn plan_render(clips: &Vec<RenderClip>, sources: Vec<Result<WavData, String>>, options: RenderOptions) -> (r: Result<RenderPlan, String>)
    requires
        clips.len() == sources.len(),
    ensures
        match render_plan_spec(clips@, sources@, options) {
            Err(m) => r matches Err(e) && e@ == m,
            Ok((rate, total, start, end)) => r matches Ok(plan) && plan.sample_rate == rate && plan.total_frames == total
                && plan.start_frame == start && plan.end_frame == end,
        },
        r matches Ok(plan) ==> {
            &&& clips.len() > 0
            &&& forall|k: int| 0 <= k < sources@.len() ==> ((#[trigger] sources@[k]) matches Ok(w) && source_ok(w)
                && w.sample_rate == plan.sample_rate)
            &&& plan.spans@.len() == clips.len()
            &&& forall|k: int| 0 <= k < clips.len() ==> #[trigger] plan.spans@[k]
                == clip_span_spec(clips@[k], plan.sample_rate, source_frames_of(sources@[k]->Ok_0))
            &&& plan.total_frames > 0
            &&& plan.total_frames <= sat_mul(plan.sample_rate as u64, 1800u64)
            &&& plan.start_frame == frames_at(options.range_start_ms, plan.sample_rate)
            &&& plan.end_frame == min_u64(match options.range_end_ms {
                    Some(e) => if e > options.range_start_ms { frames_at(e, plan.sample_rate) } else { plan.total_frames },
                    None => plan.total_frames,
                }, plan.total_frames)
            &&& plan.start_frame < plan.end_frame
            &&& plan.output_frames == plan.end_frame - plan.start_frame
        },
{
    if clips.len() == 0 {
        return Err(to_string("Timeline has no audible clips to render."));
    }
    let mut rate: Option<u32> = None;
    let mut spans: Vec<ClipSpan> = Vec::new();
    let mut total: u64 = 0;
    let mut i: usize = 0;
    let ghost srcs = sources@;
    let mut rest = sources;
    while i < clips.len()
        invariant
            i <= clips.len(),
            clips.len() == srcs.len(),
            srcs == sources@,
            rest@ == srcs.subrange(i as int, srcs.len() as int),
            spans@.len() == i,
            i > 0 ==> rate is Some,
            i == 0 ==> rate is None,
            forall|k: int| 0 <= k < i ==> ((#[trigger] srcs[k]) matches Ok(w) && source_ok(w) && Some(w.sample_rate) == rate),
            forall|k: int| 0 <= k < i ==> #[trigger] spans@[k] == clip_span_spec(clips@[k], rate->0, source_frames_of(srcs[k]->Ok_0)),
            scan_sources(clips@, srcs, i as int) == Ok::<(Option<u32>, u64), Seq<char>>((rate, total)),
        decreases clips.len() - i,
    {
        let source = rest.remove(0);
        assert(source == srcs[i as int]);
        let wav = match source {
            Err(e) => {
                proof { lemma_scan_error_persists(clips@, srcs, i as int + 1, e@); }
                return Err(e);
            },
            Ok(w) => w,
        };
        match check_render_source(clips[i].name.as_str(), &wav) {
            Err(e) => {
                proof { lemma_scan_error_persists(clips@, srcs, i as int + 1, e@); }
                return Err(e);
            },
            Ok(()) => {},
        }
        match rate {
            Some(expected) => if expected != wav.sample_rate {
                proof {
                    lemma_scan_error_persists(clips@, srcs, i as int + 1,
                        "Timeline sources must share one sample rate before offline render."@);
                }
                return Err(to_string("Timeline sources must share one sample rate before offline render."));
            },
            None => rate = Some(wav.sample_rate),
        }
        let per_sample: u64 = (wav.bits_per_sample / 8) as u64;
        assert(per_sample * (wav.channels as u64) <= 0xffff * 0xffff) by (nonlinear_arith)
            requires per_sample <= 0xffff, wav.channels <= 0xffff;
        let frame_bytes: u64 = per_sample * (wav.channels as u64);
        assert(frame_bytes > 0) by (nonlinear_arith) requires per_sample >= 1, wav.channels >= 1, frame_bytes == per_sample * (wav.channels as u64);
        let source_frames = (wav.data_len as u64) / frame_bytes;
        let span = clip_span(&clips[i], wav.sample_rate, source_frames);
        let end = match span.start_frame.checked_add(span.audible_frames) {
            Some(e) => e,
            None => u64::MAX,
        };
        if end > total {
            total = end;
        }
        spans.push(span);
        i += 1;
    }
    let sample_rate = match rate {
        Some(r) => r,
        None => return Err(to_string("Timeline has no renderable sources.")),
    };
    let max_frames = match (sample_rate as u64).checked_mul(60 * MAX_RENDER_MINUTES) {
        Some(m) => m,
        None => u64::MAX,
    };
    if total == 0 || total > max_frames {
        return Err(to_string("Timeline render is limited to 30 minutes."));
    }
    let start_frame = frames_of(options.range_start_ms, sample_rate);
    let requested_end = match options.range_end_ms {
        Some(e) => if e > options.range_start_ms { frames_of(e, sample_rate) } else { total },
        None => total,
    };
    let end_frame = if requested_end <= total { requested_end } else { total };
    if start_frame >= end_frame {
        return Err(to_string("Render range does not overlap the audible timeline."));
    }
    Ok(RenderPlan {
        sample_rate,
        total_frames: total,
        start_frame,
        end_frame,
        output_frames: end_frame - start_frame,
        spans,
    })
}

/// The frames of a clip that are mixed: none when its source range is
/// empty, else the frames it is heard for.
pub fn mixed_frames(span: &ClipSpan) -> (n: u64)
    ensures
        n == if span.available_frames == 0 { 0 } else { span.audible_frames },
{
    if span.available_frames == 0 { 0 } else { span.audible_frames }
}

/// Where frame `frame` of a clip goes: the output frame it is mixed into
/// (none when it falls outside the rendered range) and the source frame it
/// is read from (wrapping around the source range when the clip loops).
pub fn mix_target(span: &ClipSpan, loop_enabled: bool, start_frame: u64, end_frame: u64, frame: u64) -> (t: Option<(u64, u64)>)
    requires
        span.available_frames > 0,
        span.source_in_frame + span.available_frames <= u64::MAX,
        !loop_enabled ==> frame < span.available_frames,
    ensures
        ({
            let absolute = if span.start_frame + frame > u64::MAX { u64::MAX as int } else { span.start_frame + frame };
            match t {
                None => absolute < start_frame || absolute >= end_frame,
                Some((output, source)) => start_frame <= absolute < end_frame
                    && output == absolute - start_frame
                    && source == span.source_in_frame + if loop_enabled { frame % span.available_frames } else { frame },
            }
        }),
{
    let absolute = match span.start_frame.checked_add(frame) {
        Some(a) => a,
        None => u64::MAX,
    };
    if absolute < start_frame || absolute >= end_frame {
        return None;
    }
    let offset = if loop_enabled { frame % span.available_frames } else { frame };
    Some((absolute - start_frame, span.source_in_frame + offset))
}

/// The result of a render written to `path` at `created_at_ms`.
pub fn render_result(created_at_ms: u64, path: String, plan: &RenderPlan, clip_count: usize, normalize: bool) -> (r: RenderResult)
    requires
        plan.sample_rate > 0,
        plan.start_frame < plan.end_frame,
        plan.end_frame <= plan.total_frames,
        plan.total_frames <= sat_mul(plan.sample_rate as u64, 1800u64),
        plan.output_frames == plan.end_frame - plan.start_frame,
    ensures
        r.id@ == "render:"@ + decimal(created_at_ms as nat),
        r.path == path,
        r.sample_rate == plan.sample_rate,
        r.frames == plan.output_frames,
        r.duration_ms == plan.output_frames * 1000 / plan.sample_rate as int,
        r.clip_count == clip_count,
        r.range_start_ms == plan.start_frame * 1000 / plan.sample_rate as int,
        r.range_end_ms == plan.end_frame * 1000 / plan.sample_rate as int,
        r.normalized == normalize,
        r.state@ == "completed"@,
        r.message@ == if normalize {
            "Timeline rendered to a normalized stereo WAV with master gain; source clips remain unchanged."@
        } else {
            "Timeline rendered to a new stereo WAV with master gain; source clips remain unchanged."@
        },
{
    let rate = plan.sample_rate as u64;
    assert(plan.end_frame <= rate * 1800);
    assert(rate * 1800 * 1000 <= u64::MAX) by (nonlinear_arith) requires rate <= 0xffff_ffff;
    let digits = u64_to_decimal(created_at_ms);
    RenderResult {
        id: concat2("render:", digits.as_str()),
        path,
        sample_rate: plan.sample_rate,
        frames: plan.output_frames,
        duration_ms: plan.output_frames * 1000 / rate,
        clip_count,
        range_start_ms: plan.start_frame * 1000 / rate,
        range_end_ms: plan.end_frame * 1000 / rate,
        normalized: normalize,
        state: to_string("completed"),
        message: if normalize {
            to_string("Timeline rendered to a normalized stereo WAV with master gain; source clips remain unchanged.")
        } else {
            to_string("Timeline rendered to a new stereo WAV with master gain; source clips remain unchanged.")
        },
    }
}

} // verus!
