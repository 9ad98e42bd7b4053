//! Standard MIDI export of the session's MIDI clips.
//!
//! Audible notes become note-on / note-off pairs on one track of a Type 0
//! file at 480 ticks per quarter note and 120 BPM. Events are written in
//! time order, a note-off before a note-on at the same tick, and otherwise
//! in the order the notes were read.

use vstd::prelude::*;
use crate::text::{concat2, to_string, u64_to_decimal, decimal};
use crate::path::{join_path, plain_segment};

verus! {

broadcast use vstd::string::group_string_axioms;

/// Ticks per quarter note of an export.
pub const TICKS_PER_QUARTER: u64 = 480;
/// Tempo of an export.
pub const TEMPO_BPM: u64 = 120;

/// A note of a clip, timed in milliseconds from the clip start.
#[derive(Clone, Copy, Debug, PartialEq, Eq, Structural)]
pub struct ExportNote {
    pub note: u8,
    pub start_ms: u64,
    pub duration_ms: u64,
    pub velocity: u8,
    pub channel: u8,
}

/// A MIDI clip of the session, timed in milliseconds.
pub struct ExportClip {
    pub muted: bool,
    pub start_ms: u64,
    pub notes: Vec<ExportNote>,
}

/// A channel message at a tick; `order` puts note-offs (0) before
/// note-ons (1) at the same tick.
#[derive(Clone, Copy, Debug, PartialEq, Eq, Structural)]
pub struct MidiMessage {
    pub tick: u64,
    pub order: u8,
    pub status: u8,
    pub note: u8,
    pub velocity: u8,
}

/// The outcome of an export.
pub struct MidiExportResult {
    pub id: String,
    pub path: String,
    pub note_count: usize,
    pub clip_count: usize,
    pub state: String,
    pub message: String,
}

pub open spec fn sat_add(a: u64, b: u64) -> u64 {
    if a + b > u64::MAX { u64::MAX } else { (a + b) as u64 }
}

pub open spec fn sat_mul(a: u64, b: u64) -> u64 {
    if a * b > u64::MAX { u64::MAX } else { (a * b) as u64 }
}

/// Milliseconds to ticks at 120 BPM and 480 ticks per quarter, rounding
/// down; the products saturate.
pub open spec fn ms_to_ticks_spec(ms: u64) -> u64 {
    (sat_mul(sat_mul(ms, TICKS_PER_QUARTER), TEMPO_BPM) / 60_000) as u64
}

fn saturating_mul(a: u64, b: u64) -> (r: u64)
    ensures
        r == sat_mul(a, b),
{
    match a.checked_mul(b) {
        Some(v) => v,
        None => u64::MAX,
    }
}

fn saturating_add(a: u64, b: u64) -> (r: u64)
    ensures
        r == sat_add(a, b),
{
    match a.checked_add(b) {
        Some(v) => v,
        None => u64::MAX,
    }
}

/// Milliseconds to ticks; see `ms_to_ticks_spec`.
pub fn ms_to_ticks(ms: u64) -> (t: u64)
    ensures
        t == ms_to_ticks_spec(ms),
{
    saturating_mul(saturating_mul(ms, TICKS_PER_QUARTER), TEMPO_BPM) / 60_000
}

/// The leading groups of a variable-length quantity: the base-128 digits
/// of `n`, most significant first, each with its high bit set.
pub open spec fn vlq_lead(n: nat) -> Seq<u8>
    decreases n,
{
    if n == 0 { seq![] } else { vlq_lead(n / 128).push(((n % 128) + 128) as u8) }
}

/// The variable-length quantity of `v`: its base-128 digits, most
/// significant first, every byte but the last with its high bit set.
pub open spec fn vlq(v: nat) -> Seq<u8> {
    vlq_lead(v / 128).push((v % 128) as u8)
}

/// Reads a variable-length quantity: seven bits per byte, most significant
/// first, up to and including the first byte without its high bit.
pub open spec fn vlq_value(bytes: Seq<u8>) -> nat
    decreases bytes.len(),
{
    if bytes.len() == 0 { 0 } else { vlq_value(bytes.drop_last()) * 128 + (bytes.last() % 128) as nat }
}

proof fn lemma_vlq_lead(n: nat)
    ensures
        vlq_value(vlq_lead(n)) == n,
        forall|k: int| 0 <= k < vlq_lead(n).len() ==> #[trigger] vlq_lead(n)[k] >= 128,
    decreases n,
{
    if n > 0 {
        lemma_vlq_lead(n / 128);
        let l = vlq_lead(n);
        assert(l.drop_last() =~= vlq_lead(n / 128));
        assert(((n % 128) + 128) as u8 % 128 == n % 128);
    }
}

/// A variable-length quantity reads back as the number written, ends with
/// its only byte below 128, and is at most ten bytes long for a `u64`.
pub proof fn law_var_len_round_trips(v: u64)
    ensures
        vlq_value(vlq(v as nat)) == v,
        vlq(v as nat).last() < 128,
        forall|k: int| 0 <= k < vlq(v as nat).len() - 1 ==> #[trigger] vlq(v as nat)[k] >= 128,
        1 <= vlq(v as nat).len() <= 10,
{
    let n = v as nat;
    lemma_vlq_lead(n / 128);
    let b = vlq(n);
    assert(b.drop_last() =~= vlq_lead(n / 128));
    assert forall|k: int| 0 <= k < b.len() - 1 implies #[trigger] b[k] >= 128 by {
        assert(b[k] == vlq_lead(n / 128)[k]);
    }
    assert(pow128(9) == 0x8000_0000_0000_0000) by {
        reveal_with_fuel(pow128, 10);
    }
    lemma_vlq_len(n / 128, 9);
}

proof fn lemma_vlq_len(n: nat, k: nat)
    requires
        n < pow128(k),
    ensures
        vlq_lead(n).len() <= k,
    decreases n,
{
    if n > 0 {
        assert(k > 0) by {
            if k == 0 {
                assert(pow128(0) == 1);
            }
        }
        assert(n / 128 < pow128((k - 1) as nat));
        lemma_vlq_len(n / 128, (k - 1) as nat);
    }
}

pub open spec fn pow128(k: nat) -> nat
    decreases k,
{
    if k == 0 { 1 } else { 128 * pow128((k - 1) as nat) }
}

/// The variable-length quantity of `value`; see `vlq`.
pub fn write_var_len(value: u64) -> (bytes: Vec<u8>)
    ensures
        bytes@ == vlq(value as nat),
{
    let mut digits: Vec<u8> = Vec::new();
    let mut n: u64 = value / 128;
    while n > 0
        invariant
            vlq_lead((value / 128) as nat) == vlq_lead(n as nat) + digits@.reverse(),
        decreases n,
    {
        let ghost before = digits@;
        digits.push(((n % 128) + 128) as u8);
        assert(vlq_lead(n as nat) == vlq_lead((n / 128) as nat).push(((n % 128) + 128) as u8));
        assert(digits@.reverse() =~= seq![((n % 128) + 128) as u8] + before.reverse());
        assert(vlq_lead(n as nat) + before.reverse() =~= vlq_lead((n / 128) as nat) + digits@.reverse());
        n = n / 128;
    }
    assert(vlq_lead(0) =~= Seq::<u8>::empty());
    let mut bytes: Vec<u8> = Vec::new();
    let mut i = digits.len();
    while i > 0
        invariant
            i <= digits.len(),
            bytes@ == digits@.reverse().take((digits.len() - i) as int),
        decreases i,
    {
        i -= 1;
        bytes.push(digits[i]);
        assert(digits@.reverse().take((digits.len() - i) as int) =~= digits@.reverse().take((digits.len() - i - 1) as int).push(digits@[i as int]));
    }
    assert(digits@.reverse().take(digits.len() as int) =~= digits@.reverse());
    bytes.push((value % 128) as u8);
    bytes
}

/// The note-on and note-off of `n` in a clip starting at `clip_start`:
/// times saturate, a note lasts at least a millisecond and a tick, channels
/// 1 to 16 map to 0 to 15 (0 to 0, above 16 to 15), keys stop at 127 and
/// velocities are kept within 1 to 127.
pub open spec fn note_messages(clip_start: u64, n: ExportNote) -> Seq<MidiMessage> {
    let start_ms = sat_add(clip_start, n.start_ms);
    let end_ms = sat_add(start_ms, if n.duration_ms < 1 { 1 } else { n.duration_ms });
    let channel: u8 = if n.channel == 0 { 0 } else if n.channel - 1 > 15 { 15 } else { (n.channel - 1) as u8 };
    let start_tick = ms_to_ticks_spec(start_ms);
    let end_tick = if ms_to_ticks_spec(end_ms) >= sat_add(start_tick, 1) { ms_to_ticks_spec(end_ms) } else { sat_add(start_tick, 1) };
    let key: u8 = if n.note > 127 { 127 } else { n.note };
    let velocity: u8 = if n.velocity < 1 { 1 } else if n.velocity > 127 { 127 } else { n.velocity };
    seq![
        MidiMessage { tick: start_tick, order: 1, status: (0x90 + channel) as u8, note: key, velocity },
        MidiMessage { tick: end_tick, order: 0, status: (0x80 + channel) as u8, note: key, velocity: 0 },
    ]
}

pub open spec fn clip_messages(clip_start: u64, notes: Seq<ExportNote>) -> Seq<MidiMessage>
    decreases notes.len(),
{
    if notes.len() == 0 { seq![] } else { clip_messages(clip_start, notes.drop_last()) + note_messages(clip_start, notes.last()) }
}

/// The messages of the audible (unmuted) clips, clip by clip, note by note.
pub open spec fn session_messages(clips: Seq<ExportClip>) -> Seq<MidiMessage>
    decreases clips.len(),
{
    if clips.len() == 0 {
        seq![]
    } else {
        let before = session_messages(clips.drop_last());
        let c = clips.last();
        if c.muted { before } else { before + clip_messages(c.start_ms, c.notes@) }
    }
}

pub open spec fn audible_clips(clips: Seq<ExportClip>) -> nat
    decreases clips.len(),
{
    if clips.len() == 0 { 0 } else { audible_clips(clips.drop_last()) + if clips.last().muted { 0nat } else { 1nat } }
}

/// `a` comes strictly before `b`: an earlier tick, or the same tick and a
/// lower order.
pub open spec fn message_before(a: MidiMessage, b: MidiMessage) -> bool {
    a.tick < b.tick || (a.tick == b.tick && a.order < b.order)
}

/// `x` placed in `s` after every message not strictly after it.
pub open spec fn insert_message(s: Seq<MidiMessage>, x: MidiMessage) -> Seq<MidiMessage>
    decreases s.len(),
{
    if s.len() == 0 {
        seq![x]
    } else if message_before(x, s[0]) {
        seq![x] + s
    } else {
        seq![s[0]] + insert_message(s.drop_first(), x)
    }
}

/// The messages in time order, note-offs first at a tick, and otherwise in
/// the order given (a stable sort by tick and order).
pub open spec fn sorted_messages(s: Seq<MidiMessage>) -> Seq<MidiMessage>
    decreases s.len(),
{
    if s.len() == 0 { seq![] } else { insert_message(sorted_messages(s.drop_last()), s.last()) }
}

pub open spec fn in_time_order(s: Seq<MidiMessage>) -> bool {
    forall|i: int, j: int| 0 <= i < j < s.len() ==> !message_before(#[trigger] s[j], #[trigger] s[i])
}

proof fn lemma_insert_message(s: Seq<MidiMessage>, x: MidiMessage, p: int)
    requires
        0 <= p <= s.len(),
        forall|k: int| 0 <= k < p ==> !message_before(x, #[trigger] s[k]),
        p < s.len() ==> message_before(x, s[p]),
    ensures
        insert_message(s, x) == s.insert(p, x),
    decreases s.len(),
{
    if s.len() == 0 {
        assert(s.insert(p, x) =~= seq![x]);
    } else if p == 0 {
        assert(s.insert(0, x) =~= seq![x] + s);
    } else {
        assert forall|k: int| 0 <= k < p - 1 implies !message_before(x, #[trigger] s.drop_first()[k]) by {
            assert(s.drop_first()[k] == s[k + 1]);
        }
        lemma_insert_message(s.drop_first(), x, p - 1);
        assert(s.insert(p, x) =~= seq![s[0]] + s.drop_first().insert(p - 1, x));
    }
}

proof fn lemma_insert_keeps_order(s: Seq<MidiMessage>, x: MidiMessage)
    requires
        in_time_order(s),
    ensures
        in_time_order(insert_message(s, x)),
        insert_message(s, x).to_multiset() == s.to_multiset().insert(x),
    decreases s.len(),
{
    broadcast use vstd::seq_lib::group_to_multiset_ensures, vstd::multiset::group_multiset_axioms;
    if s.len() == 0 {
        assert(insert_message(s, x) =~= seq![x]);
        assert(seq![x] =~= Seq::<MidiMessage>::empty().push(x));
    } else if message_before(x, s[0]) {
        let r = seq![x] + s;
        assert(r =~= s.insert(0, x));
        vstd::seq_lib::to_multiset_insert(s, 0, x);
        assert forall|i: int, j: int| 0 <= i < j < r.len() implies !message_before(#[trigger] r[j], #[trigger] r[i]) by {
            if i > 0 {
                assert(r[i] == s[i - 1] && r[j] == s[j - 1]);
            } else {
                assert(r[j] == s[j - 1]);
                if j - 1 > 0 {
                    assert(!message_before(s[j - 1], s[0]));
                }
            }
        }
    } else {
        let t = s.drop_first();
        assert forall|i: int, j: int| 0 <= i < j < t.len() implies !message_before(#[trigger] t[j], #[trigger] t[i]) by {
            assert(t[i] == s[i + 1] && t[j] == s[j + 1]);
        }
        lemma_insert_keeps_order(t, x);
        let it = insert_message(t, x);
        let r = seq![s[0]] + it;
        assert(r == insert_message(s, x));
        assert forall|i: int, j: int| 0 <= i < j < r.len() implies !message_before(#[trigger] r[j], #[trigger] r[i]) by {
            if i > 0 {
                assert(r[i] == it[i - 1] && r[j] == it[j - 1]);
            } else {
                assert(r[j] == it[j - 1]);
                let y = it[j - 1];
                assert(it.to_multiset().count(y) > 0) by {
                    assert(it.contains(y));
                    vstd::seq_lib::to_multiset_contains(it, y);
                }
                assert(t.to_multiset().insert(x).count(y) > 0);
                if y != x {
                    assert(t.to_multiset().count(y) > 0);
                    vstd::seq_lib::to_multiset_contains(t, y);
                    let k = choose|k: int| 0 <= k < t.len() && t[k] == y;
                    assert(s[k + 1] == y);
                }
            }
        }
        assert(s =~= seq![s[0]] + t);
        assert(seq![s[0]].to_multiset() =~= Seq::<MidiMessage>::empty().push(s[0]).to_multiset()) by {
            assert(seq![s[0]] =~= Seq::<MidiMessage>::empty().push(s[0]));
        }
        vstd::seq_lib::lemma_multiset_commutative(seq![s[0]], it);
        vstd::seq_lib::lemma_multiset_commutative(seq![s[0]], t);
        assert(r.to_multiset() =~= s.to_multiset().insert(x));
    }
}

/// Sorting the messages keeps every message and puts them in time order
/// (note-offs first at a tick).
pub proof fn law_messages_sorted(s: Seq<MidiMessage>)
    ensures
        in_time_order(sorted_messages(s)),
        sorted_messages(s).to_multiset() == s.to_multiset(),
    decreases s.len(),
{
    broadcast use vstd::seq_lib::group_to_multiset_ensures, vstd::multiset::group_multiset_axioms;
    if s.len() == 0 {
        assert(sorted_messages(s) =~= Seq::<MidiMessage>::empty());
        assert(s.to_multiset() =~= vstd::multiset::Multiset::<MidiMessage>::empty());
    } else {
        law_messages_sorted(s.drop_last());
        lemma_insert_keeps_order(sorted_messages(s.drop_last()), s.last());
        assert(s =~= s.drop_last().push(s.last()));
    }
}

fn sort_messages(messages: &Vec<MidiMessage>) -> (sorted: Vec<MidiMessage>)
    ensures
        sorted@ == sorted_messages(messages@),
{
    let mut out: Vec<MidiMessage> = Vec::new();
    let mut i: usize = 0;
    while i < messages.len()
        invariant
            i <= messages.len(),
            out@ == sorted_messages(messages@.take(i as int)),
        decreases messages.len() - i,
    {
        let x = messages[i];
        assert(messages@.take(i as int + 1).drop_last() =~= messages@.take(i as int));
        let mut p: usize = 0;
        while p < out.len() && !(x.tick < out[p].tick || (x.tick == out[p].tick && x.order < out[p].order))
            invariant
                p <= out.len(),
                forall|k: int| 0 <= k < p ==> !message_before(x, #[trigger] out@[k]),
            decreases out.len() - p,
        {
            p += 1;
        }
        proof {
            lemma_insert_message(out@, x, p as int);
        }
        out.insert(p, x);
        i += 1;
    }
    assert(messages@.take(messages.len() as int) =~= messages@);
    out
}

fn clamp_channel(channel: u8) -> (c: u8)
    ensures
        c == (if channel == 0 { 0 } else if channel - 1 > 15 { 15 } else { (channel - 1) as u8 }),
{
    if channel == 0 { 0 } else if channel - 1 > 15 { 15 } else { channel - 1 }
}

fn collect_messages(clips: &Vec<ExportClip>) -> (messages: Vec<MidiMessage>)
    ensures
        messages@ == session_messages(clips@),
{
    let mut messages: Vec<MidiMessage> = Vec::new();
    let mut c: usize = 0;
    while c < clips.len()
        invariant
            c <= clips.len(),
            messages@ == session_messages(clips@.take(c as int)),
        decreases clips.len() - c,
    {
        assert(clips@.take(c as int + 1).drop_last() =~= clips@.take(c as int));
        let clip = &clips[c];
        if !clip.muted {
            let ghost before = messages@;
            let mut k: usize = 0;
            while k < clip.notes.len()
                invariant
                    k <= clip.notes.len(),
                    messages@ == before + clip_messages(clip.start_ms, clip.notes@.take(k as int)),
                decreases clip.notes.len() - k,
            {
                let n = clip.notes[k];
                assert(clip.notes@.take(k as int + 1).drop_last() =~= clip.notes@.take(k as int));
                let start_ms = saturating_add(clip.start_ms, n.start_ms);
                let end_ms = saturating_add(start_ms, if n.duration_ms < 1 { 1 } else { n.duration_ms });
                let channel = clamp_channel(n.channel);
                let start_tick = ms_to_ticks(start_ms);
                let after = saturating_add(start_tick, 1);
                let end_ticks = ms_to_ticks(end_ms);
                let end_tick = if end_ticks >= after { end_ticks } else { after };
                let key: u8 = if n.note > 127 { 127 } else { n.note };
                let velocity: u8 = if n.velocity < 1 { 1 } else if n.velocity > 127 { 127 } else { n.velocity };
                let ghost mid = messages@;
                messages.push(MidiMessage { tick: start_tick, order: 1, status: 0x90 + channel, note: key, velocity });
                messages.push(MidiMessage { tick: end_tick, order: 0, status: 0x80 + channel, note: key, velocity: 0 });
                assert(messages@ =~= mid + note_messages(clip.start_ms, n));
                assert(clip.notes@.take(k as int + 1).last() == n);
                k += 1;
            }
            assert(clip.notes@.take(clip.notes.len() as int) =~= clip.notes@);
        }
        c += 1;
    }
    assert(clips@.take(clips.len() as int) =~= clips@);
    messages
}

/// The fixed start of the track: tempo 120 BPM (500000 microseconds per
/// quarter) and a 4/4 time signature.
pub open spec fn track_start() -> Seq<u8> {
    seq![0x00u8, 0xff, 0x51, 0x03, 0x07, 0xa1, 0x20, 0x00, 0xff, 0x58, 0x04, 0x04, 0x02, 0x18, 0x08]
}

/// The end-of-track event.
pub open spec fn track_end() -> Seq<u8> {
    seq![0x00u8, 0xff, 0x2f, 0x00]
}

/// The events of `msgs`, each as the delta from the previous message's
/// tick (from 0 for the first, never negative) followed by its three bytes.
pub open spec fn track_events(msgs: Seq<MidiMessage>) -> Seq<u8>
    decreases msgs.len(),
{
    if msgs.len() == 0 {
        seq![]
    } else {
        let m = msgs.last();
        let previous: u64 = if msgs.len() >= 2 { msgs[msgs.len() - 2].tick } else { 0 };
        let delta: nat = if m.tick >= previous { (m.tick - previous) as nat } else { 0 };
        track_events(msgs.drop_last()) + vlq(delta) + seq![m.status, m.note, m.velocity]
    }
}

pub open spec fn be32(v: u32) -> Seq<u8> {
    seq![(v / 0x100_0000) as u8, ((v / 0x1_0000) % 0x100) as u8, ((v / 0x100) % 0x100) as u8, (v % 0x100) as u8]
}

/// A Type 0 Standard MIDI File holding `track`: the header chunk (format
/// 0, one track, 480 ticks per quarter) and the track chunk.
pub open spec fn midi_file(track: Seq<u8>) -> Seq<u8> {
    seq![0x4du8, 0x54, 0x68, 0x64, 0, 0, 0, 6, 0, 0, 0, 1, 0x01, 0xe0, 0x4d, 0x54, 0x72, 0x6b]
        + be32(track.len() as u32) + track
}

/// The file exported for `clips`.
pub open spec fn export_bytes(clips: Seq<ExportClip>) -> Seq<u8> {
    midi_file(track_start() + track_events(sorted_messages(session_messages(clips))) + track_end())
}

fn encode_track(messages: &Vec<MidiMessage>) -> (track: Vec<u8>)
    ensures
        track@ == track_start() + track_events(messages@) + track_end(),
{
    let mut track: Vec<u8> = vec![0x00u8, 0xff, 0x51, 0x03, 0x07, 0xa1, 0x20, 0x00, 0xff, 0x58, 0x04, 0x04, 0x02, 0x18, 0x08];
    assert(track@ =~= track_start());
    let mut previous: u64 = 0;
    let mut i: usize = 0;
    while i < messages.len()
        invariant
            i <= messages.len(),
            track@ == track_start() + track_events(messages@.take(i as int)),
            previous == if i >= 1 { messages@[i - 1].tick } else { 0 },
        decreases messages.len() - i,
    {
        let m = messages[i];
        let delta: u64 = if m.tick >= previous { m.tick - previous } else { 0 };
        let bytes = write_var_len(delta);
        let ghost before = track@;
        let mut j: usize = 0;
        while j < bytes.len()
            invariant
                j <= bytes.len(),
                track@ == before + bytes@.take(j as int),
            decreases bytes.len() - j,
        {
            track.push(bytes[j]);
            assert(bytes@.take(j as int + 1) =~= bytes@.take(j as int).push(bytes@[j as int]));
            j += 1;
        }
        assert(bytes@.take(bytes.len() as int) =~= bytes@);
        track.push(m.status);
        track.push(m.note);
        track.push(m.velocity);
        proof {
            let t = messages@.take(i as int + 1);
            assert(t.drop_last() =~= messages@.take(i as int));
            assert(t.last() == m);
            if i >= 1 {
                assert(t[t.len() - 2] == messages@[i - 1]);
            }
            assert(track@ =~= track_start() + track_events(t));
        }
        previous = m.tick;
        i += 1;
    }
    assert(messages@.take(messages.len() as int) =~= messages@);
    track.push(0x00);
    track.push(0xff);
    track.push(0x2f);
    track.push(0x00);
    assert(track@ =~= track_start() + track_events(messages@) + track_end());
    track
}

fn be32_bytes(v: u32) -> (b: Vec<u8>)
    ensures
        b@ == be32(v),
{
    let b = vec![(v / 0x100_0000) as u8, ((v / 0x1_0000) % 0x100) as u8, ((v / 0x100) % 0x100) as u8, (v % 0x100) as u8];
    assert(b@ =~= be32(v));
    b
}

/// The bytes of the exported file for `clips`; an error when no clip
/// holds an audible note.
pub fn encode_session_midi(clips: &Vec<ExportClip>) -> (r: Result<(Vec<u8>, usize, usize), String>)
    ensures
        match r {
            Ok((bytes, note_count, clip_count)) => {
                &&& session_messages(clips@).len() > 0
                &&& bytes@ == export_bytes(clips@)
                &&& note_count == session_messages(clips@).len() / 2
                &&& clip_count == audible_clips(clips@)
            },
            Err(e) => session_messages(clips@).len() == 0 && e@ == "There are no audible MIDI notes to export."@,
        },
{
    let messages = collect_messages(clips);
    if messages.len() == 0 {
        return Err(to_string("There are no audible MIDI notes to export."));
    }
    let note_count = messages.len() / 2;
    let sorted = sort_messages(&messages);
    let track = encode_track(&sorted);
    let mut file: Vec<u8> = vec![0x4du8, 0x54, 0x68, 0x64, 0, 0, 0, 6, 0, 0, 0, 1, 0x01, 0xe0, 0x4d, 0x54, 0x72, 0x6b];
    let length = be32_bytes(track.len() as u32);
    let ghost head = file@;
    file.push(length[0]);
    file.push(length[1]);
    file.push(length[2]);
    file.push(length[3]);
    let ghost with_length = file@;
    let mut i: usize = 0;
    while i < track.len()
        invariant
            i <= track.len(),
            file@ == with_length + track@.take(i as int),
        decreases track.len() - i,
    {
        file.push(track[i]);
        assert(track@.take(i as int + 1) =~= track@.take(i as int).push(track@[i as int]));
        i += 1;
    }
    assert(track@.take(track.len() as int) =~= track@);
    assert(file@ =~= export_bytes(clips@));
    let mut clip_count: usize = 0;
    let mut c: usize = 0;
    while c < clips.len()
        invariant
            c <= clips.len(),
            clip_count == audible_clips(clips@.take(c as int)),
            clip_count <= c,
        decreases clips.len() - c,
    {
        assert(clips@.take(c as int + 1).drop_last() =~= clips@.take(c as int));
        if !clips[c].muted {
            clip_count += 1;
        }
        c += 1;
    }
    assert(clips@.take(clips.len() as int) =~= clips@);
    Ok((file, note_count, clip_count))
}

/// The export's outcome, for the file written at `path` at `created_at_ms`.
pub fn export_result(created_at_ms: u64, path: String, note_count: usize, clip_count: usize) -> (r: MidiExportResult)
    ensures
        r.id@ == "midi-export:"@ + decimal(created_at_ms as nat),
        r.path == path,
        r.note_count == note_count,
        r.clip_count == clip_count,
        r.state@ == "completed"@,
        r.message@ == "MIDI clips exported as a standard Type 0 file; source session remains unchanged."@,
{
    let digits = u64_to_decimal(created_at_ms);
    MidiExportResult {
        id: concat2("midi-export:", digits.as_str()),
        path,
        note_count,
        clip_count,
        state: to_string("completed"),
        message: to_string("MIDI clips exported as a standard Type 0 file; source session remains unchanged."),
    }
}

proof fn lemma_clip_message_positions(clip_start: u64, notes: Seq<ExportNote>)
    ensures
        clip_messages(clip_start, notes).len() == 2 * notes.len(),
        forall|k: int| 0 <= k < notes.len() ==> {
            &&& #[trigger] clip_messages(clip_start, notes)[2 * k] == note_messages(clip_start, notes[k])[0]
            &&& clip_messages(clip_start, notes)[2 * k + 1] == note_messages(clip_start, notes[k])[1]
        },
    decreases notes.len(),
{
    if notes.len() > 0 {
        lemma_clip_message_positions(clip_start, notes.drop_last());
        let before = clip_messages(clip_start, notes.drop_last());
        assert forall|k: int| 0 <= k < notes.len() implies {
            &&& #[trigger] clip_messages(clip_start, notes)[2 * k] == note_messages(clip_start, notes[k])[0]
            &&& clip_messages(clip_start, notes)[2 * k + 1] == note_messages(clip_start, notes[k])[1]
        } by {
            if k < notes.len() - 1 {
                assert(notes.drop_last()[k] == notes[k]);
                assert(before[2 * k] == note_messages(clip_start, notes.drop_last()[k])[0]);
            }
        }
    }
}

proof fn lemma_session_holds_clip(clips: Seq<ExportClip>, c: int)
    requires
        0 <= c < clips.len(),
        !clips[c].muted,
    ensures
        exists|off: int| 0 <= off && off + clip_messages(clips[c].start_ms, clips[c].notes@).len() <= session_messages(clips).len()
            && #[trigger] session_messages(clips).subrange(off, off + clip_messages(clips[c].start_ms, clips[c].notes@).len())
                == clip_messages(clips[c].start_ms, clips[c].notes@),
    decreases clips.len(),
{
    let m = clip_messages(clips[c].start_ms, clips[c].notes@);
    let before = session_messages(clips.drop_last());
    if c == clips.len() - 1 {
        let off = before.len() as int;
        assert(session_messages(clips) == before + m);
        assert(session_messages(clips).subrange(off, off + m.len()) =~= m);
    } else {
        assert(clips.drop_last()[c] == clips[c]);
        lemma_session_holds_clip(clips.drop_last(), c);
        let off = choose|off: int| 0 <= off && off + m.len() <= before.len()
            && #[trigger] before.subrange(off, off + m.len()) == m;
        let all = session_messages(clips);
        assert(before.is_prefix_of(all)) by {
            if !clips.last().muted {
                assert(all == before + clip_messages(clips.last().start_ms, clips.last().notes@));
            }
        }
        assert(all.subrange(off, off + m.len()) =~= before.subrange(off, off + m.len()));
    }
}

/// Every note of an audible clip is exported on its own MIDI channel: a
/// note on channel `c` (1 to 16) is switched on with status `0x90 + c - 1`
/// and off, right after in the clip's messages, with `0x80 + c - 1`;
/// channel 0 is written as the first channel and channels above 16 as the
/// last. Both messages carry the note's key, capped at 127; the note-on
/// carries the velocity kept within 1 to 127, the note-off velocity 0, and
/// the note-off comes at a later tick.
pub proof fn law_notes_keep_their_channel(clips: Seq<ExportClip>, c: int, k: int)
    requires
        0 <= c < clips.len(),
        !clips[c].muted,
        0 <= k < clips[c].notes@.len(),
    ensures
        ({
            let n = clips[c].notes@[k];
            let index: int = if 1 <= n.channel <= 16 { n.channel - 1 } else if n.channel == 0 { 0 } else { 15 };
            let key: int = if n.note <= 127 { n.note as int } else { 127 };
            exists|p: int| 0 <= p && p + 1 < session_messages(clips).len()
                && (#[trigger] session_messages(clips)[p]).status == 0x90 + index
                && session_messages(clips)[p + 1].status == 0x80 + index
                && session_messages(clips)[p].note == key
                && session_messages(clips)[p + 1].note == key
                && session_messages(clips)[p].velocity == (if n.velocity == 0 { 1 } else if n.velocity > 127 { 127 } else { n.velocity as int })
                && session_messages(clips)[p + 1].velocity == 0
                && session_messages(clips)[p].order == 1
                && session_messages(clips)[p + 1].order == 0
                && session_messages(clips)[p].tick < session_messages(clips)[p + 1].tick
        }),
{
    let notes = clips[c].notes@;
    let start = clips[c].start_ms;
    let m = clip_messages(start, notes);
    lemma_clip_message_positions(start, notes);
    lemma_session_holds_clip(clips, c);
    let all = session_messages(clips);
    let off = choose|off: int| 0 <= off && off + m.len() <= all.len() && #[trigger] all.subrange(off, off + m.len()) == m;
    let p = off + 2 * k;
    assert(all[p] == m[2 * k]) by {
        assert(all.subrange(off, off + m.len())[2 * k] == all[p]);
    }
    assert(all[p + 1] == m[2 * k + 1]) by {
        assert(all.subrange(off, off + m.len())[2 * k + 1] == all[p + 1]);
    }
    assert(m[2 * k] == note_messages(start, notes[k])[0]);
}

} // verus!
