//! Channel separation: a stereo WAV asset is split into a left and a right
//! asset without touching the source.
//!
//! The source must be a WAV (by extension) with at least two channels, PCM
//! of 8, 16, 24 or 32 bits or 32-bit float, and at least one whole frame;
//! each output holds one 32-bit float sample per frame.

use vstd::prelude::*;
use crate::asset::{AssetId, AssetKind};
use crate::path::path_extension;
use crate::text::{concat2, to_string, u64_to_decimal, decimal, eq_ignore_ascii_case, eq_ignore_ascii_case_spec};
use crate::wav::WavData;

verus! {

broadcast use vstd::string::group_string_axioms;

/// The outcome of a separation.
pub struct SeparationResult {
    pub id: String,
    pub source_asset_id: AssetId,
    pub left_asset_id: AssetId,
    pub right_asset_id: AssetId,
    pub duration_ms: u64,
    pub state: String,
    pub created_at_ms: u64,
    pub message: String,
}

/// The name an asset kind is shown by in messages.
pub open spec fn kind_word(k: AssetKind) -> Seq<char> {
    match k {
        AssetKind::Audio => "Audio"@,
        AssetKind::Midi => "Midi"@,
        AssetKind::Sample => "Sample"@,
        AssetKind::RackDefinition => "RackDefinition"@,
        AssetKind::GenerationDefinition => "GenerationDefinition"@,
    }
}

/// Checks that the source asset is audio.
pub fn check_source_kind(kind: AssetKind) -> (r: Result<(), String>)
    ensures
        r is Ok <==> kind == AssetKind::Audio,
        r matches Err(e) ==> e@ == "Separation requires an audio source asset, got "@ + kind_word(kind) + "."@,
{
    let word = match kind {
        AssetKind::Audio => return Ok(()),
        AssetKind::Midi => "Midi",
        AssetKind::Sample => "Sample",
        AssetKind::RackDefinition => "RackDefinition",
        AssetKind::GenerationDefinition => "GenerationDefinition",
    };
    let mut m = concat2("Separation requires an audio source asset, got ", word);
    crate::text::append_str(&mut m, ".");
    Err(m)
}

/// How a source is split.
#[derive(Clone, Copy, Debug, PartialEq, Eq, Structural)]
pub struct SplitPlan {
    pub frames: usize,
    pub bytes_per_sample: usize,
    pub frame_bytes: usize,
    pub data_end: usize,
    /// Byte length of each output's data chunk.
    pub output_data_len: u32,
}

pub open spec fn split_error(wav: WavData, file_len: usize) -> Option<Seq<char>> {
    let bytes_per_sample = (wav.bits_per_sample / 8) as int;
    let frame_bytes = bytes_per_sample * wav.channels as int;
    if wav.channels < 2 {
        Some("Channel split requires a stereo WAV source."@)
    } else if !(wav.format == 1 || wav.format == 3) || !(wav.bits_per_sample == 8 || wav.bits_per_sample == 16
        || wav.bits_per_sample == 24 || wav.bits_per_sample == 32) {
        Some("Channel split supports PCM or 32-bit float WAV sources."@)
    } else if wav.format == 3 && wav.bits_per_sample != 32 {
        Some("Float channel split requires 32-bit samples."@)
    } else if frame_bytes == 0 || (wav.data_len as int) < frame_bytes {
        Some("WAV contains no complete stereo frames."@)
    } else {
        let frames = wav.data_len as int / frame_bytes;
        let data_end = wav.data_offset + frames * frame_bytes;
        if data_end > usize::MAX {
            Some("WAV data boundary overflowed."@)
        } else if data_end > file_len {
            Some("WAV data chunk is outside the file boundary."@)
        } else if frames * 4 > usize::MAX {
            Some("Output WAV is too large."@)
        } else if frames * 4 > u32::MAX {
            Some("Output WAV is too large for a RIFF data chunk."@)
        } else {
            None
        }
    }
}

/// Plans the split of a parsed source of `file_len` bytes whose path has
/// extension `extension`; see `split_error` for when it is refused.
pub fn plan_channel_split(extension: Option<String>, wav: &WavData, file_len: usize) -> (r: Result<SplitPlan, String>)
    ensures
        !(extension matches Some(e) && eq_ignore_ascii_case_spec(e@, "wav"@)) ==> (r matches Err(m)
            && m@ == "Channel split currently accepts WAV sources only."@),
        (extension matches Some(e) && eq_ignore_ascii_case_spec(e@, "wav"@)) ==> match split_error(*wav, file_len) {
            Some(m) => r matches Err(x) && x@ == m,
            None => r matches Ok(p) && {
                let bytes_per_sample = (wav.bits_per_sample / 8) as int;
                let frame_bytes = bytes_per_sample * wav.channels as int;
                &&& p.bytes_per_sample == bytes_per_sample
                &&& p.frame_bytes == frame_bytes
                &&& p.frames == wav.data_len as int / frame_bytes
                &&& p.data_end == wav.data_offset + p.frames * frame_bytes
                &&& p.output_data_len == p.frames * 4
            },
        },
{
    let is_wav = match &extension {
        Some(e) => eq_ignore_ascii_case(e.as_str(), "wav"),
        None => false,
    };
    if !is_wav {
        return Err(to_string("Channel split currently accepts WAV sources only."));
    }
    if wav.channels < 2 {
        return Err(to_string("Channel split requires a stereo WAV source."));
    }
    let bits = wav.bits_per_sample;
    if !(wav.format == 1 || wav.format == 3) || !(bits == 8 || bits == 16 || bits == 24 || bits == 32) {
        return Err(to_string("Channel split supports PCM or 32-bit float WAV sources."));
    }
    if wav.format == 3 && bits != 32 {
        return Err(to_string("Float channel split requires 32-bit samples."));
    }
    let bytes_per_sample: usize = (bits / 8) as usize;
    assert(bytes_per_sample * (wav.channels as usize) <= 4 * 0xffff) by (nonlinear_arith)
        requires bytes_per_sample <= 4, wav.channels <= 0xffff;
    let frame_bytes: usize = bytes_per_sample * (wav.channels as usize);
    if frame_bytes == 0 || wav.data_len < frame_bytes {
        return Err(to_string("WAV contains no complete stereo frames."));
    }
    let frames = wav.data_len / frame_bytes;
    assert(frames * frame_bytes <= wav.data_len) by (nonlinear_arith)
        requires frames == wav.data_len / frame_bytes, frame_bytes > 0;
    let data_end = match wav.data_offset.checked_add(frames * frame_bytes) {
        Some(e) => e,
        None => return Err(to_string("WAV data boundary overflowed.")),
    };
    if data_end > file_len {
        return Err(to_string("WAV data chunk is outside the file boundary."));
    }
    let out_len = match frames.checked_mul(4) {
        Some(n) => n,
        None => return Err(to_string("Output WAV is too large.")),
    };
    if out_len > u32::MAX as usize {
        return Err(to_string("Output WAV is too large for a RIFF data chunk."));
    }
    Ok(SplitPlan { frames, bytes_per_sample, frame_bytes, data_end, output_data_len: out_len as u32 })
}

/// Where frame `frame` of the source holds its left and right samples,
/// relative to the data chunk.
pub fn frame_samples(plan: &SplitPlan, frame: usize) -> (r: (usize, usize))
    requires
        frame < plan.frames,
        plan.frames * plan.frame_bytes <= usize::MAX,
        2 * plan.bytes_per_sample <= plan.frame_bytes,
    ensures
        r.0 == frame * plan.frame_bytes,
        r.1 == frame * plan.frame_bytes + plan.bytes_per_sample,
        r.1 + plan.bytes_per_sample <= plan.frames * plan.frame_bytes,
{
    assert(frame * plan.frame_bytes + plan.frame_bytes <= plan.frames * plan.frame_bytes) by (nonlinear_arith)
        requires frame < plan.frames, plan.frame_bytes >= 0;
    let start = frame * plan.frame_bytes;
    (start, start + plan.bytes_per_sample)
}

/// The outcome of separating `source` at `created_at_ms` into `left` and
/// `right`, from a source of `frames` frames at `sample_rate`.
pub fn separation_result(
    created_at_ms: u64,
    source: AssetId,
    left: AssetId,
    right: AssetId,
    frames: usize,
    sample_rate: u32,
) -> (r: SeparationResult)
    requires
        sample_rate > 0,
        frames as int * 4 <= u32::MAX,
    ensures
        r.id@ == "separation:"@ + decimal(created_at_ms as nat),
        r.source_asset_id == source,
        r.left_asset_id == left,
        r.right_asset_id == right,
        r.duration_ms == (frames as int * 1000) / sample_rate as int,
        r.state@ == "completed"@,
        r.created_at_ms == created_at_ms,
        r.message@ == "Stereo channels were separated into canonical assets without modifying the source WAV."@,
{
    let digits = u64_to_decimal(created_at_ms);
    SeparationResult {
        id: concat2("separation:", digits.as_str()),
        source_asset_id: source,
        left_asset_id: left,
        right_asset_id: right,
        duration_ms: (frames as u64) * 1000 / (sample_rate as u64),
        state: to_string("completed"),
        created_at_ms,
        message: to_string("Stereo channels were separated into canonical assets without modifying the source WAV."),
    }
}

/// Most recent separation first.
pub open spec fn newest_separation_first(s: Seq<SeparationResult>) -> bool {
    forall|i: int, j: int| 0 <= i < j < s.len() ==> (#[trigger] s[j]).created_at_ms <= (#[trigger] s[i]).created_at_ms
}

/// `x` placed in `s` after every separation made no earlier than it.
pub open spec fn insert_separation(s: Seq<SeparationResult>, x: SeparationResult) -> Seq<SeparationResult>
    decreases s.len(),
{
    if s.len() == 0 {
        seq![x]
    } else if s[0].created_at_ms < x.created_at_ms {
        seq![x] + s
    } else {
        seq![s[0]] + insert_separation(s.drop_first(), x)
    }
}

/// The separations most recent first, those of the same time in the order
/// given (a stable sort).
pub open spec fn separation_order(s: Seq<SeparationResult>) -> Seq<SeparationResult>
    decreases s.len(),
{
    if s.len() == 0 { seq![] } else { insert_separation(separation_order(s.drop_last()), s.last()) }
}

proof fn lemma_insert_separation(s: Seq<SeparationResult>, x: SeparationResult, p: int)
    requires
        0 <= p <= s.len(),
        forall|k: int| 0 <= k < p ==> (#[trigger] s[k]).created_at_ms >= x.created_at_ms,
        p < s.len() ==> s[p].created_at_ms < x.created_at_ms,
    ensures
        insert_separation(s, x) == s.insert(p, x),
    decreases s.len(),
{
    if s.len() == 0 {
        assert(s.insert(p, x) =~= seq![x]);
    } else if p == 0 {
        assert(s.insert(0, x) =~= seq![x] + s);
    } else {
        assert forall|k: int| 0 <= k < p - 1 implies (#[trigger] s.drop_first()[k]).created_at_ms >= x.created_at_ms by {
            assert(s.drop_first()[k] == s[k + 1]);
        }
        lemma_insert_separation(s.drop_first(), x, p - 1);
        assert(s.insert(p, x) =~= seq![s[0]] + s.drop_first().insert(p - 1, x));
    }
}

/// Orders separations most recent first; separations of the same time keep
/// their order.
pub fn sort_separations(results: Vec<SeparationResult>) -> (sorted: Vec<SeparationResult>)
    ensures
        sorted@ == separation_order(results@),
        sorted@.to_multiset() == results@.to_multiset(),
        newest_separation_first(sorted@),
{
    broadcast use vstd::seq_lib::group_to_multiset_ensures, vstd::multiset::group_multiset_axioms;
    let ghost input = results@;
    let mut rest = results;
    let mut out: Vec<SeparationResult> = Vec::new();
    let ghost mut n: int = 0;
    assert(out@.to_multiset() =~= vstd::multiset::Multiset::<SeparationResult>::empty());
    while rest.len() > 0
        invariant
            0 <= n <= input.len(),
            rest@ == input.skip(n),
            out@ == separation_order(input.take(n)),
            out@.to_multiset().add(rest@.to_multiset()) == input.to_multiset(),
            newest_separation_first(out@),
        decreases rest.len(),
    {
        let ghost rest0 = rest@;
        let x = rest.remove(0);
        assert(x == input[n]);
        assert(input.take(n + 1).drop_last() =~= input.take(n));
        proof {
            vstd::seq_lib::to_multiset_remove(rest0, 0);
        }
        let mut p: usize = 0;
        while p < out.len() && out[p].created_at_ms >= x.created_at_ms
            invariant
                p <= out.len(),
                forall|k: int| 0 <= k < p ==> (#[trigger] out@[k]).created_at_ms >= x.created_at_ms,
            decreases out.len() - p,
        {
            p += 1;
        }
        let ghost out0 = out@;
        proof { lemma_insert_separation(out0, x, p as int); }
        out.insert(p, x);
        proof {
            n = n + 1;
            vstd::seq_lib::to_multiset_insert(out0, p as int, x);
            assert(rest0[0] == x);
            assert(rest0.contains(x));
            vstd::seq_lib::to_multiset_contains(rest0, x);
            assert(out@.to_multiset().add(rest@.to_multiset()) =~= out0.to_multiset().add(rest0.to_multiset()));
            let ns = out@;
            assert forall|i: int, j: int| 0 <= i < j < ns.len() implies (#[trigger] ns[j]).created_at_ms <= (#[trigger] ns[i]).created_at_ms by {
                if j < p {
                    assert(ns[i] == out0[i] && ns[j] == out0[j]);
                } else if j == p {
                    assert(ns[i] == out0[i]);
                } else if i < p {
                    assert(ns[i] == out0[i] && ns[j] == out0[j - 1]);
                } else if i == p {
                    assert(ns[j] == out0[j - 1]);
                    assert(out0[p as int].created_at_ms < x.created_at_ms);
                    if j - 1 > p {
                        assert(out0[j - 1].created_at_ms <= out0[p as int].created_at_ms);
                    }
                } else {
                    assert(ns[i] == out0[i - 1] && ns[j] == out0[j - 1]);
                }
            }
        }
    }
    assert(rest@.to_multiset() =~= vstd::multiset::Multiset::<SeparationResult>::empty());
    assert(input.take(n) =~= input);
    out
}

} // verus!
