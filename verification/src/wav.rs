//! RIFF/WAVE chunk parsing: the format and data chunk of a complete file,
//! and the number of whole frames held by an interrupted (partial) file.

use vstd::prelude::*;
use crate::text::to_string;

verus! {

broadcast use vstd::string::group_string_axioms;

/// Little-endian 16-bit value at `i`.
pub open spec fn le16(b: Seq<u8>, i: int) -> int {
    b[i] as int + 256 * (b[i + 1] as int)
}

/// Little-endian 32-bit value at `i`.
pub open spec fn le32(b: Seq<u8>, i: int) -> int {
    b[i] as int + 256 * (b[i + 1] as int) + 65536 * (b[i + 2] as int) + 16777216 * (b[i + 3] as int)
}

/// Whether the four bytes at `i` are the ASCII tag `t`.
pub open spec fn tag_at(b: Seq<u8>, i: int, t: Seq<u8>) -> bool {
    t.len() == 4 && i + 4 <= b.len() && b[i] == t[0] && b[i + 1] == t[1] && b[i + 2] == t[2] && b[i + 3] == t[3]
}

/// `RIFF`.
pub open spec fn riff() -> Seq<u8> { seq![0x52u8, 0x49u8, 0x46u8, 0x46u8] }
/// `WAVE`.
pub open spec fn wave() -> Seq<u8> { seq![0x57u8, 0x41u8, 0x56u8, 0x45u8] }
/// `fmt `.
pub open spec fn fmt_tag() -> Seq<u8> { seq![0x66u8, 0x6du8, 0x74u8, 0x20u8] }
/// `data`.
pub open spec fn data_tag() -> Seq<u8> { seq![0x64u8, 0x61u8, 0x74u8, 0x61u8] }

/// Whether `b` starts with a RIFF/WAVE header.
pub open spec fn has_wave_header(b: Seq<u8>) -> bool {
    b.len() >= 12 && tag_at(b, 0, riff()) && tag_at(b, 8, wave())
}

/// Reads a little-endian `u16` from a two-byte field.
pub fn read_u16(bytes: &[u8]) -> (r: Result<u16, String>)
    ensures
        bytes@.len() == 2 ==> r == Ok::<u16, String>(le16(bytes@, 0) as u16) && le16(bytes@, 0) < 65536,
        bytes@.len() != 2 ==> (r matches Err(e) && e@ == "Invalid WAV u16 field."@),
{
    if bytes.len() != 2 {
        return Err(to_string("Invalid WAV u16 field."));
    }
    let v = (bytes[0] as u16) + 256 * (bytes[1] as u16);
    Ok(v)
}

/// Reads a little-endian `u32` from a four-byte field.
pub fn read_u32(bytes: &[u8]) -> (r: Result<u32, String>)
    ensures
        bytes@.len() == 4 ==> r == Ok::<u32, String>(le32(bytes@, 0) as u32) && le32(bytes@, 0) < 4294967296,
        bytes@.len() != 4 ==> (r matches Err(e) && e@ == "Invalid WAV u32 field."@),
{
    if bytes.len() != 4 {
        return Err(to_string("Invalid WAV u32 field."));
    }
    let v = (bytes[0] as u32) + 256 * (bytes[1] as u32) + 65536 * (bytes[2] as u32) + 16777216 * (bytes[3] as u32);
    Ok(v)
}

fn u16_at(b: &[u8], i: usize) -> (r: u16)
    requires
        i + 2 <= b@.len(),
    ensures
        r as int == le16(b@, i as int),
{
    (b[i] as u16) + 256 * (b[i + 1] as u16)
}

fn u32_at(b: &[u8], i: usize) -> (r: u32)
    requires
        i + 4 <= b@.len(),
    ensures
        r as int == le32(b@, i as int),
{
    (b[i] as u32) + 256 * (b[i + 1] as u32) + 65536 * (b[i + 2] as u32) + 16777216 * (b[i + 3] as u32)
}

fn is_tag(b: &[u8], i: usize, t0: u8, t1: u8, t2: u8, t3: u8) -> (r: bool)
    requires
        i + 4 <= b@.len(),
    ensures
        r == tag_at(b@, i as int, seq![t0, t1, t2, t3]),
{
    b[i] == t0 && b[i + 1] == t1 && b[i + 2] == t2 && b[i + 3] == t3
}

/// The format fields read from a `fmt ` chunk.
#[derive(Clone, Copy, Debug, PartialEq, Eq, Structural)]
pub struct WavFormat {
    pub format: u16,
    pub channels: u16,
    pub sample_rate: u32,
    pub bits_per_sample: u16,
}

/// Where the audio data is and how it is encoded.
#[derive(Clone, Copy, Debug, PartialEq, Eq, Structural)]
pub struct WavData {
    pub format: u16,
    pub channels: u16,
    pub sample_rate: u32,
    pub bits_per_sample: u16,
    pub data_offset: usize,
    pub data_len: usize,
}

/// The chunk walk of a complete WAV file from `cursor`: every chunk must lie
/// inside the file; the last `fmt ` chunk of at least 16 bytes and the last
/// `data` chunk win. Chunks are padded to even length.
pub open spec fn scan_chunks(b: Seq<u8>, cursor: int, fmt: Option<WavFormat>, data: Option<(int, int)>)
    -> Result<(Option<WavFormat>, Option<(int, int)>), Seq<char>>
    decreases b.len() + 1 - cursor,
{
    if cursor < 0 || cursor + 8 > b.len() {
        Ok((fmt, data))
    } else {
        let size = le32(b, cursor + 4);
        let start = cursor + 8;
        let end = start + size;
        if end > usize::MAX {
            Err("WAV chunk size overflowed."@)
        } else if end > b.len() {
            Err("WAV chunk exceeds the file boundary."@)
        } else {
            let fmt2 = if tag_at(b, cursor, fmt_tag()) && size >= 16 {
                Some(WavFormat {
                    format: le16(b, start) as u16,
                    channels: le16(b, start + 2) as u16,
                    sample_rate: le32(b, start + 4) as u32,
                    bits_per_sample: le16(b, start + 14) as u16,
                })
            } else {
                fmt
            };
            let data2 = if !(tag_at(b, cursor, fmt_tag()) && size >= 16) && tag_at(b, cursor, data_tag()) {
                Some((start, size))
            } else {
                data
            };
            scan_chunks(b, end + size % 2, fmt2, data2)
        }
    }
}

/// The result of parsing a complete WAV file.
pub open spec fn parse_wav_spec(b: Seq<u8>) -> Result<WavData, Seq<char>> {
    if !has_wave_header(b) {
        Err("Audio file is not a RIFF/WAVE file."@)
    } else {
        match scan_chunks(b, 12, None, None) {
            Err(e) => Err(e),
            Ok((None, _)) => Err("WAV fmt chunk is missing."@),
            Ok((Some(_), None)) => Err("WAV data chunk is missing."@),
            Ok((Some(f), Some((offset, len)))) => Ok(WavData {
                format: f.format,
                channels: f.channels,
                sample_rate: f.sample_rate,
                bits_per_sample: f.bits_per_sample,
                data_offset: offset as usize,
                data_len: len as usize,
            }),
        }
    }
}

/// Parses the chunks of a complete RIFF/WAVE file.
pub fn parse_wav(bytes: &[u8]) -> (r: Result<WavData, String>)
    ensures
        match r {
            Ok(w) => parse_wav_spec(bytes@) == Ok::<WavData, Seq<char>>(w),
            Err(e) => parse_wav_spec(bytes@) == Err::<WavData, Seq<char>>(e@),
        },
{
    let len = bytes.len();
    if len < 12 || !is_tag(bytes, 0, 0x52, 0x49, 0x46, 0x46) || !is_tag(bytes, 8, 0x57, 0x41, 0x56, 0x45) {
        proof {
            assert(riff() =~= seq![0x52u8, 0x49u8, 0x46u8, 0x46u8]);
            assert(wave() =~= seq![0x57u8, 0x41u8, 0x56u8, 0x45u8]);
        }
        return Err(to_string("Audio file is not a RIFF/WAVE file."));
    }
    proof {
        assert(riff() =~= seq![0x52u8, 0x49u8, 0x46u8, 0x46u8]);
        assert(wave() =~= seq![0x57u8, 0x41u8, 0x56u8, 0x45u8]);
        assert(fmt_tag() =~= seq![0x66u8, 0x6du8, 0x74u8, 0x20u8]);
        assert(data_tag() =~= seq![0x64u8, 0x61u8, 0x74u8, 0x61u8]);
    }
    let mut cursor: usize = 12;
    let mut fmt: Option<WavFormat> = None;
    let mut data: Option<(usize, usize)> = None;
    while cursor <= len && len - cursor >= 8
        invariant
            len == bytes@.len(),
            cursor <= len + 1,
            has_wave_header(bytes@),
            scan_chunks(bytes@, 12, None, None) == scan_chunks(bytes@, cursor as int, fmt, match data { Some((o, l)) => Some((o as int, l as int)), None => None }),
        decreases len + 1 - cursor,
    {
        let ghost d = match data { Some((o, l)) => Some((o as int, l as int)), None => None::<(int, int)> };
        let size = u32_at(bytes, cursor + 4) as usize;
        let start = cursor + 8;
        let end = match start.checked_add(size) {
            Some(e) => e,
            None => {
                assert(scan_chunks(bytes@, cursor as int, fmt, d) == Err::<(Option<WavFormat>, Option<(int, int)>), Seq<char>>("WAV chunk size overflowed."@));
                return Err(to_string("WAV chunk size overflowed."));
            },
        };
        if end > len {
            assert(scan_chunks(bytes@, cursor as int, fmt, d) == Err::<(Option<WavFormat>, Option<(int, int)>), Seq<char>>("WAV chunk exceeds the file boundary."@));
            return Err(to_string("WAV chunk exceeds the file boundary."));
        }
        let is_fmt = is_tag(bytes, cursor, 0x66, 0x6d, 0x74, 0x20);
        if is_fmt && size >= 16 {
            fmt = Some(WavFormat {
                format: u16_at(bytes, start),
                channels: u16_at(bytes, start + 2),
                sample_rate: u32_at(bytes, start + 4),
                bits_per_sample: u16_at(bytes, start + 14),
            });
        } else if is_tag(bytes, cursor, 0x64, 0x61, 0x74, 0x61) {
            data = Some((start, size));
        }
        let next = if end < len { end + (size % 2) } else { end };
        proof {
            let d2 = match data { Some((o, l)) => Some((o as int, l as int)), None => None::<(int, int)> };
            assert(scan_chunks(bytes@, (end + size % 2) as int, fmt, d2) == scan_chunks(bytes@, next as int, fmt, d2));
        }
        cursor = next;
    }
    match fmt {
        None => Err(to_string("WAV fmt chunk is missing.")),
        Some(f) => match data {
            None => Err(to_string("WAV data chunk is missing.")),
            Some((offset, dlen)) => Ok(WavData {
                format: f.format,
                channels: f.channels,
                sample_rate: f.sample_rate,
                bits_per_sample: f.bits_per_sample,
                data_offset: offset,
                data_len: dlen,
            }),
        },
    }
}

/// The chunk walk of a possibly truncated WAV file from `cursor`: whole
/// frames in the data chunk, counting only the bytes present. A `fmt `
/// chunk counts only when its 16 format bytes are present; a data chunk
/// before any format, or with zero-sized frames, gives `None`, as does a
/// non-data chunk that runs past the end.
pub open spec fn partial_scan(b: Seq<u8>, cursor: int, fmt: Option<(int, int)>) -> Option<u64>
    decreases b.len() + 1 - cursor,
{
    if cursor < 0 || cursor + 8 > b.len() {
        None
    } else {
        let size = le32(b, cursor + 4);
        let start = cursor + 8;
        if tag_at(b, cursor, fmt_tag()) && size >= 16 && start + 16 <= b.len() {
            let end = start + size;
            if end > usize::MAX || end > b.len() {
                None
            } else {
                partial_scan(b, end + size % 2, Some((le16(b, start + 2), le16(b, start + 14))))
            }
        } else if tag_at(b, cursor, data_tag()) {
            match fmt {
                None => None,
                Some((channels, bits)) => {
                    let frame = channels * (bits / 8);
                    if frame == 0 {
                        None
                    } else {
                        let available = if size < b.len() - start { size } else { b.len() - start };
                        Some(#[verifier::truncate] ((available / frame) as u64))
                    }
                },
            }
        } else {
            let end = start + size;
            if end > usize::MAX || end > b.len() {
                None
            } else {
                partial_scan(b, end + size % 2, fmt)
            }
        }
    }
}

/// Whole frames recorded in a WAV file that may have been cut off
/// mid-write; `None` when the file is not a WAV or holds no usable data
/// chunk.
pub fn partial_wav_samples(bytes: &[u8]) -> (r: Option<u64>)
    ensures
        r == (if has_wave_header(bytes@) { partial_scan(bytes@, 12, None) } else { None }),
{
    let len = bytes.len();
    if len < 12 || !is_tag(bytes, 0, 0x52, 0x49, 0x46, 0x46) || !is_tag(bytes, 8, 0x57, 0x41, 0x56, 0x45) {
        proof {
            assert(riff() =~= seq![0x52u8, 0x49u8, 0x46u8, 0x46u8]);
            assert(wave() =~= seq![0x57u8, 0x41u8, 0x56u8, 0x45u8]);
        }
        return None;
    }
    proof {
        assert(riff() =~= seq![0x52u8, 0x49u8, 0x46u8, 0x46u8]);
        assert(wave() =~= seq![0x57u8, 0x41u8, 0x56u8, 0x45u8]);
        assert(fmt_tag() =~= seq![0x66u8, 0x6du8, 0x74u8, 0x20u8]);
        assert(data_tag() =~= seq![0x64u8, 0x61u8, 0x74u8, 0x61u8]);
    }
    let mut cursor: usize = 12;
    let mut fmt: Option<(u16, u16)> = None;
    while cursor <= len && len - cursor >= 8
        invariant
            len == bytes@.len(),
            cursor <= len + 1,
            has_wave_header(bytes@),
            partial_scan(bytes@, 12, None) == partial_scan(bytes@, cursor as int, match fmt { Some((c, b)) => Some((c as int, b as int)), None => None }),
        decreases len + 1 - cursor,
    {
        let size = u32_at(bytes, cursor + 4) as usize;
        let start = cursor + 8;
        if is_tag(bytes, cursor, 0x66, 0x6d, 0x74, 0x20) && size >= 16 && len - start >= 16 {
            fmt = Some((u16_at(bytes, start + 2), u16_at(bytes, start + 14)));
        } else if is_tag(bytes, cursor, 0x64, 0x61, 0x74, 0x61) {
            let (channels, bits) = match fmt {
                Some(f) => f,
                None => return None,
            };
            assert((channels as int) * ((bits / 8) as int) <= 65535 * 8191) by (nonlinear_arith)
                requires channels <= 65535, bits / 8 <= 8191;
            let frame: usize = (channels as usize) * ((bits / 8) as usize);
            if frame == 0 {
                return None;
            }
            let rest = len - start;
            let available = if size < rest { size } else { rest };
            return Some((available / frame) as u64);
        }
        let end = match start.checked_add(size) {
            Some(e) => e,
            None => return None,
        };
        if end > len {
            return None;
        }
        let next = if end < len { end + (size % 2) } else { end };
        proof {
            let f = match fmt { Some((c, b)) => Some((c as int, b as int)), None => None::<(int, int)> };
            assert(partial_scan(bytes@, (end + size % 2) as int, f) == partial_scan(bytes@, next as int, f));
        }
        cursor = next;
    }
    None
}

/// Appends the four bytes of `x`, least significant first.
fn push_le32(out: &mut Vec<u8>, x: u32)
    ensures
        final(out)@.len() == old(out)@.len() + 4,
        final(out)@.subrange(0, old(out)@.len() as int) == old(out)@,
        le32(final(out)@, old(out)@.len() as int) == x,
{
    let b0 = (x % 256) as u8;
    let b1 = ((x / 256) % 256) as u8;
    let b2 = ((x / 65536) % 256) as u8;
    let b3 = (x / 16777216) as u8;
    assert(x == b0 as int + 256 * (b1 as int) + 65536 * (b2 as int) + 16777216 * (b3 as int)) by (nonlinear_arith)
        requires
            b0 == x % 256,
            b1 == (x / 256) % 256,
            b2 == (x / 65536) % 256,
            b3 == x / 16777216;
    let ghost before = out@;
    out.push(b0);
    out.push(b1);
    out.push(b2);
    out.push(b3);
    assert(out@.subrange(0, before.len() as int) =~= before);
}

/// Appends the two bytes of `x`, least significant first.
fn push_le16(out: &mut Vec<u8>, x: u16)
    ensures
        final(out)@.len() == old(out)@.len() + 2,
        final(out)@.subrange(0, old(out)@.len() as int) == old(out)@,
        le16(final(out)@, old(out)@.len() as int) == x,
{
    let b0 = (x % 256) as u8;
    let b1 = (x / 256) as u8;
    let ghost before = out@;
    out.push(b0);
    out.push(b1);
    assert(out@.subrange(0, before.len() as int) =~= before);
}

/// Appends four tag bytes.
fn push_tag(out: &mut Vec<u8>, t0: u8, t1: u8, t2: u8, t3: u8)
    ensures
        final(out)@ == old(out)@ + seq![t0, t1, t2, t3],
{
    let ghost before = out@;
    out.push(t0);
    out.push(t1);
    out.push(t2);
    out.push(t3);
    assert(out@ =~= before + seq![t0, t1, t2, t3]);
}

/// The 44-byte header of a 32-bit float WAV file with `channels` channels
/// and `data_len` bytes of samples: `RIFF`, the RIFF size (36 plus the data
/// size), `WAVE`, a 16-byte `fmt ` chunk (format 3, the channels, the sample
/// rate, the byte rate, saturated at the largest `u32`, the block size and
/// 32 bits per sample), then `data` and its size. `None` when the RIFF size
/// does not fit in 32 bits.
pub fn float_wav_header(channels: u16, sample_rate: u32, data_len: u32) -> (r: Option<Vec<u8>>)
    requires
        1 <= channels <= 8,
    ensures
        r is None <==> 36 + data_len > u32::MAX,
        r matches Some(b) ==> {
            &&& b@.len() == 44
            &&& tag_at(b@, 0, riff())
            &&& le32(b@, 4) == 36 + data_len
            &&& tag_at(b@, 8, wave())
            &&& tag_at(b@, 12, fmt_tag())
            &&& le32(b@, 16) == 16
            &&& le16(b@, 20) == 3
            &&& le16(b@, 22) == channels
            &&& le32(b@, 24) == sample_rate
            &&& le32(b@, 28) == if sample_rate * 4 * channels > u32::MAX { u32::MAX as int } else { sample_rate * 4 * channels }
            &&& le16(b@, 32) == 4 * channels
            &&& le16(b@, 34) == 32
            &&& tag_at(b@, 36, data_tag())
            &&& le32(b@, 40) == data_len
        },
{
    let riff_len = match 36u32.checked_add(data_len) {
        Some(n) => n,
        None => return None,
    };
    let block: u16 = 4 * channels;
    let byte_rate: u32 = match sample_rate.checked_mul(block as u32) {
        Some(n) => n,
        None => u32::MAX,
    };
    assert(sample_rate * (block as int) == sample_rate * 4 * channels) by (nonlinear_arith)
        requires block == 4 * channels;
    let mut b: Vec<u8> = Vec::new();
    push_tag(&mut b, 0x52, 0x49, 0x46, 0x46);
    let ghost s0 = b@;
    push_le32(&mut b, riff_len);
    let ghost s1 = b@;
    push_tag(&mut b, 0x57, 0x41, 0x56, 0x45);
    let ghost s2 = b@;
    push_tag(&mut b, 0x66, 0x6d, 0x74, 0x20);
    let ghost s3 = b@;
    push_le32(&mut b, 16);
    let ghost s4 = b@;
    push_le16(&mut b, 3);
    let ghost s5 = b@;
    push_le16(&mut b, channels);
    let ghost s6 = b@;
    push_le32(&mut b, sample_rate);
    let ghost s7 = b@;
    push_le32(&mut b, byte_rate);
    let ghost s8 = b@;
    push_le16(&mut b, block);
    let ghost s9 = b@;
    push_le16(&mut b, 32);
    let ghost s10 = b@;
    push_tag(&mut b, 0x64, 0x61, 0x74, 0x61);
    let ghost s11 = b@;
    push_le32(&mut b, data_len);
    proof {
        let f = b@;
        // Every earlier stage is a prefix of the final bytes.
        assert(f.subrange(0, 40) == s11.subrange(0, 40));
        assert(s11.subrange(0, 36) == s10);
        assert(s10.subrange(0, 34) == s9);
        assert(s9.subrange(0, 32) == s8);
        assert(s8.subrange(0, 28) == s7);
        assert(s7.subrange(0, 24) == s6);
        assert(s6.subrange(0, 22) == s5);
        assert(s5.subrange(0, 20) == s4);
        assert(s4.subrange(0, 16) == s3);
        assert(s3.subrange(0, 12) == s2);
        assert(s2.subrange(0, 8) == s1);
        assert(s1.subrange(0, 4) == s0);
        assert forall|i: int| 0 <= i < 40 implies f[i] == s11[i] by {
            assert(f.subrange(0, 40)[i] == f[i]);
        }
        assert forall|i: int| 0 <= i < 36 implies f[i] == s10[i] by {
            assert(s11.subrange(0, 36)[i] == s11[i]);
        }
        assert forall|i: int| 0 <= i < 34 implies f[i] == s9[i] by {
            assert(s10.subrange(0, 34)[i] == s10[i]);
        }
        assert forall|i: int| 0 <= i < 32 implies f[i] == s8[i] by {
            assert(s9.subrange(0, 32)[i] == s9[i]);
        }
        assert forall|i: int| 0 <= i < 28 implies f[i] == s7[i] by {
            assert(s8.subrange(0, 28)[i] == s8[i]);
        }
        assert forall|i: int| 0 <= i < 24 implies f[i] == s6[i] by {
            assert(s7.subrange(0, 24)[i] == s7[i]);
        }
        assert forall|i: int| 0 <= i < 22 implies f[i] == s5[i] by {
            assert(s6.subrange(0, 22)[i] == s6[i]);
        }
        assert forall|i: int| 0 <= i < 20 implies f[i] == s4[i] by {
            assert(s5.subrange(0, 20)[i] == s5[i]);
        }
        assert forall|i: int| 0 <= i < 16 implies f[i] == s3[i] by {
            assert(s4.subrange(0, 16)[i] == s4[i]);
        }
        assert forall|i: int| 0 <= i < 12 implies f[i] == s2[i] by {
            assert(s3.subrange(0, 12)[i] == s3[i]);
        }
        assert forall|i: int| 0 <= i < 8 implies f[i] == s1[i] by {
            assert(s2.subrange(0, 8)[i] == s2[i]);
        }
        assert forall|i: int| 0 <= i < 4 implies f[i] == s0[i] by {
            assert(s1.subrange(0, 4)[i] == s1[i]);
        }
    }
    Some(b)
}

/// An interrupted recording with the usual 44-byte header (a 16-byte
/// `fmt ` chunk at byte 12 giving `c` channels and `b` bits per sample, then
/// the `data` chunk at byte 36) holds as many whole frames as fit in the
/// data bytes present: with `f` frames returned and a frame of
/// `c * (b / 8)` bytes, `f` frames fit in the bytes present and `f + 1` do
/// not. The bytes present are those the data chunk declares, or fewer when
/// the file ends early.
pub proof fn law_partial_frames_fill_the_data(bytes: Seq<u8>)
    requires
        bytes.len() >= 44,
        has_wave_header(bytes),
        tag_at(bytes, 12, fmt_tag()),
        le32(bytes, 16) == 16,
        tag_at(bytes, 36, data_tag()),
        le16(bytes, 22) * (le16(bytes, 34) / 8) > 0,
        bytes.len() <= usize::MAX,
    ensures
        ({
            let frame = le16(bytes, 22) * (le16(bytes, 34) / 8);
            let declared = le32(bytes, 40);
            let present = if declared < bytes.len() - 44 { declared } else { bytes.len() - 44 };
            partial_scan(bytes, 12, None) matches Some(f) && f * frame <= present < (f + 1) * frame
        }),
{
    let frame = le16(bytes, 22) * (le16(bytes, 34) / 8);
    let declared = le32(bytes, 40);
    let present = if declared < bytes.len() - 44 { declared } else { bytes.len() - 44 };
    assert(!tag_at(bytes, 36, fmt_tag()));
    assert(partial_scan(bytes, 12, None) == partial_scan(bytes, 36, Some((le16(bytes, 22), le16(bytes, 34)))));
    assert(0 <= present);
    assert(present <= u64::MAX);
    let f = present / frame;
    assert(f * frame <= present < (f + 1) * frame) by (nonlinear_arith)
        requires f == present / frame, frame > 0, present >= 0;
    assert(f <= present) by (nonlinear_arith)
        requires f == present / frame, frame > 0, present >= 0;
    assert(partial_scan(bytes, 36, Some((le16(bytes, 22), le16(bytes, 34)))) == Some(f as u64));
}

/// Wherever the walk reaches a `data` chunk after a format of `channels`
/// channels and `bits` bits per sample, it counts the whole frames of
/// `channels * (bits / 8)` bytes that fit in the data bytes present.
pub proof fn law_data_chunk_counts_whole_frames(bytes: Seq<u8>, cursor: int, channels: int, bits: int)
    requires
        0 <= cursor,
        cursor + 8 <= bytes.len(),
        bytes.len() <= usize::MAX,
        tag_at(bytes, cursor, data_tag()),
        channels * (bits / 8) > 0,
    ensures
        ({
            let frame = channels * (bits / 8);
            let declared = le32(bytes, cursor + 4);
            let present = if declared < bytes.len() - (cursor + 8) { declared } else { bytes.len() - (cursor + 8) };
            partial_scan(bytes, cursor, Some((channels, bits))) matches Some(f) && f * frame <= present < (f + 1) * frame
        }),
{
    let frame = channels * (bits / 8);
    let declared = le32(bytes, cursor + 4);
    let present = if declared < bytes.len() - (cursor + 8) { declared } else { bytes.len() - (cursor + 8) };
    assert(!tag_at(bytes, cursor, fmt_tag()));
    assert(0 <= present <= u64::MAX);
    let f = present / frame;
    assert(f * frame <= present < (f + 1) * frame) by (nonlinear_arith)
        requires f == present / frame, frame > 0, present >= 0;
    assert(f <= present) by (nonlinear_arith)
        requires f == present / frame, frame > 0, present >= 0;
    assert(partial_scan(bytes, cursor, Some((channels, bits))) == Some(f as u64));
}

} // verus!
