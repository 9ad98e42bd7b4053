//! The checks and frame layout of audio analysis. The measurements
//! themselves (levels, spectrum) are computed by the host.

use vstd::prelude::*;
use crate::text::{to_string, str_eq};
use crate::wav::WavData;

verus! {

broadcast use vstd::string::group_string_axioms;

/// Number of waveform bins of an analysis.
pub const WAVEFORM_BINS: usize = 128;

/// Only files with the extension `wav` (exactly) are analyzed.
pub fn check_analysis_extension(extension: Option<&str>) -> (r: Result<(), String>)
    ensures
        r is Ok <==> (extension matches Some(e) && e@ == "wav"@),
        r matches Err(m) ==> m@ == "Only WAV files can be analyzed."@,
{
    match extension {
        Some(e) => if str_eq(e, "wav") { Ok(()) } else { Err(to_string("Only WAV files can be analyzed.")) },
        None => Err(to_string("Only WAV files can be analyzed.")),
    }
}

/// The frame layout of an analyzed source.
#[derive(Clone, Copy, Debug, PartialEq, Eq, Structural)]
pub struct AnalysisLayout {
    pub frames: usize,
    pub bytes_per_sample: usize,
    pub frame_bytes: usize,
}

/// Checks a parsed source for analysis: channels and a sample rate, PCM of
/// 8, 16, 24 or 32 bits or 32-bit float, and at least one whole frame.
pub fn check_analysis_source(wav: &WavData) -> (r: Result<AnalysisLayout, String>)
    ensures
        ({
            let bytes_per_sample = (wav.bits_per_sample / 8) as int;
            let frame_bytes = bytes_per_sample * wav.channels as int;
            if wav.channels == 0 || wav.sample_rate == 0 {
                r matches Err(m) && m@ == "WAV has no usable channels or sample rate."@
            } else if !(wav.format == 1 || wav.format == 3) || !(wav.bits_per_sample == 8 || wav.bits_per_sample == 16
                || wav.bits_per_sample == 24 || wav.bits_per_sample == 32) {
                r matches Err(m) && m@ == "WAV must be PCM or 32-bit float with 8/16/24/32-bit samples."@
            } else if wav.format == 3 && wav.bits_per_sample != 32 {
                r matches Err(m) && m@ == "Float WAV analysis requires 32-bit samples."@
            } else if frame_bytes == 0 || (wav.data_len as int) < frame_bytes {
                r matches Err(m) && m@ == "WAV contains no complete audio frames."@
            } else {
                r matches Ok(l) && l.bytes_per_sample == bytes_per_sample && l.frame_bytes == frame_bytes
                    && l.frames == wav.data_len as int / frame_bytes
            }
        }),
{
    if wav.channels == 0 || wav.sample_rate == 0 {
        return Err(to_string("WAV has no usable channels or sample rate."));
    }
    let bits = wav.bits_per_sample;
    if !(wav.format == 1 || wav.format == 3) || !(bits == 8 || bits == 16 || bits == 24 || bits == 32) {
        return Err(to_string("WAV must be PCM or 32-bit float with 8/16/24/32-bit samples."));
    }
    if wav.format == 3 && bits != 32 {
        return Err(to_string("Float WAV analysis requires 32-bit samples."));
    }
    let bytes_per_sample: usize = (bits / 8) as usize;
    assert(bytes_per_sample * (wav.channels as usize) <= 4 * 0xffff) by (nonlinear_arith)
        requires bytes_per_sample <= 4, wav.channels <= 0xffff;
    let frame_bytes: usize = bytes_per_sample * (wav.channels as usize);
    if frame_bytes == 0 || wav.data_len < frame_bytes {
        return Err(to_string("WAV contains no complete audio frames."));
    }
    Ok(AnalysisLayout { frames: wav.data_len / frame_bytes, bytes_per_sample, frame_bytes })
}

/// The waveform bin of frame `frame` out of `frames`: frames are spread
/// evenly over the bins in order.
pub fn waveform_bin(frame: usize, frames: usize) -> (bin: usize)
    requires
        frame < frames,
        frames as int * WAVEFORM_BINS <= usize::MAX,
    ensures
        bin == frame as int * WAVEFORM_BINS as int / frames as int,
        bin < WAVEFORM_BINS,
{
    assert(frame * WAVEFORM_BINS <= frames * WAVEFORM_BINS) by (nonlinear_arith) requires frame < frames;
    assert((frame as int) * (WAVEFORM_BINS as int) / (frames as int) < WAVEFORM_BINS) by (nonlinear_arith)
        requires frame < frames, frames > 0;
    frame * WAVEFORM_BINS / frames
}

/// The length of `frames` frames at `sample_rate`, in whole milliseconds.
pub fn duration_ms(frames: u64, sample_rate: u32) -> (ms: u64)
    requires
        sample_rate > 0,
        frames as int * 1000 <= u64::MAX,
    ensures
        ms == frames as int * 1000 / sample_rate as int,
{
    frames * 1000 / (sample_rate as u64)
}

} // verus!
