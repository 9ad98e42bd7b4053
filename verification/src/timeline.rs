//! Timeline positions, MIDI clips and the partition of a recording into
//! takes.
//!
//! A loop recording is cut at the loop length: the first pass starts where
//! the recording started, every later pass starts at the loop start, and the
//! passes together cover the whole recording without gap or overlap.

use vstd::prelude::*;
use crate::asset::AssetId;
use crate::recording_index::{id_view, copy_opt_id};
use crate::text::{concat2, concat3, to_string, u64_to_decimal, append_str, decimal};

verus! {

broadcast use vstd::string::group_string_axioms;

/// A position on the arrangement timeline, in ticks.
#[derive(Clone, Copy, Debug, PartialEq, Eq, Structural)]
pub struct TimelineTick(pub u64);

/// The loop range of the arrangement.
#[derive(Clone, Copy, Debug, PartialEq, Eq, Structural)]
pub struct TimelineLoopRange {
    pub enabled: bool,
    pub start_tick: TimelineTick,
    pub end_tick: TimelineTick,
}

/// One pass of a recording: where it lands on the timeline, and which part
/// of the recording (relative to its first tick) it holds.
#[derive(Clone, Copy, Debug, PartialEq, Eq, Structural)]
pub struct RecordingSegment {
    pub start_tick: TimelineTick,
    pub duration_ticks: u64,
    pub relative_start_tick: u64,
    pub relative_end_tick: u64,
}

pub open spec fn min_int(a: int, b: int) -> int {
    if a <= b { a } else { b }
}

pub open spec fn max_int(a: int, b: int) -> int {
    if a >= b { a } else { b }
}

/// A recording lasts at least one tick.
pub open spec fn recording_length(duration_ticks: u64) -> int {
    max_int(duration_ticks as int, 1)
}

/// Whether a recording is cut into loop passes.
pub open spec fn cuts_at_loop(loop_recording: bool, range: TimelineLoopRange) -> bool {
    loop_recording && range.enabled && range.end_tick.0 > range.start_tick.0
}

/// Pass `k` of a recording of `total` ticks cut every `length` ticks.
pub open spec fn loop_pass(start_tick: TimelineTick, total: int, length: int, loop_start: TimelineTick, k: int) -> RecordingSegment {
    let relative = k * length;
    let duration = min_int(length, total - relative);
    RecordingSegment {
        start_tick: if k == 0 { start_tick } else { loop_start },
        duration_ticks: duration as u64,
        relative_start_tick: relative as u64,
        relative_end_tick: (relative + duration) as u64,
    }
}

/// The passes of a recording: one pass when it is not cut at the loop,
/// otherwise as many passes of the loop length as it takes to cover it.
pub open spec fn recording_segments_spec(
    start_tick: TimelineTick,
    duration_ticks: u64,
    loop_recording: bool,
    range: TimelineLoopRange,
) -> Seq<RecordingSegment> {
    let total = recording_length(duration_ticks);
    if !cuts_at_loop(loop_recording, range) {
        seq![RecordingSegment {
            start_tick,
            duration_ticks: total as u64,
            relative_start_tick: 0,
            relative_end_tick: total as u64,
        }]
    } else {
        let length = range.end_tick.0 - range.start_tick.0;
        Seq::new(((total + length - 1) / length) as nat, |k: int| loop_pass(start_tick, total, length, range.start_tick, k))
    }
}

proof fn lemma_pass_count(total: int, length: int, n: int)
    requires
        length >= 1,
        n >= 1,
        (n - 1) * length < total,
        total <= n * length,
    ensures
        (total + length - 1) / length == n,
{
    assert((total + length - 1) / length == n) by (nonlinear_arith)
        requires
            length >= 1,
            n >= 1,
            (n - 1) * length < total,
            total <= n * length,
    {
        let q = (total + length - 1) / length;
        let r = (total + length - 1) % length;
        assert(total + length - 1 == q * length + r);
        assert(0 <= r < length);
        if q < n {
            assert(q <= n - 1);
            assert(q * length <= (n - 1) * length);
        }
        if q > n {
            assert(q >= n + 1);
            assert(q * length >= (n + 1) * length);
        }
    }
}

/// Cuts a recording of `duration_ticks` that started at `start_tick` into
/// passes; see `recording_segments_spec`.
pub fn recording_segments(
    start_tick: TimelineTick,
    duration_ticks: u64,
    loop_recording: bool,
    loop_range: TimelineLoopRange,
) -> (segments: Vec<RecordingSegment>)
    ensures
        segments@ == recording_segments_spec(start_tick, duration_ticks, loop_recording, loop_range),
{
    let total_ticks: u64 = if duration_ticks == 0 { 1 } else { duration_ticks };
    if !loop_recording || !loop_range.enabled || loop_range.end_tick.0 <= loop_range.start_tick.0 {
        let single = RecordingSegment {
            start_tick,
            duration_ticks: total_ticks,
            relative_start_tick: 0,
            relative_end_tick: total_ticks,
        };
        let segments = vec![single];
        assert(segments@ =~= recording_segments_spec(start_tick, duration_ticks, loop_recording, loop_range));
        return segments;
    }
    let loop_length: u64 = loop_range.end_tick.0 - loop_range.start_tick.0;
    let ghost total = total_ticks as int;
    let ghost length = loop_length as int;
    let mut segments: Vec<RecordingSegment> = Vec::new();
    let mut relative_start: u64 = 0;
    assert(segments.len() * length == 0) by (nonlinear_arith) requires segments.len() == 0;
    while relative_start < total_ticks
        invariant
            total == total_ticks,
            length == loop_length,
            loop_length >= 1,
            relative_start == min_int(segments.len() * length, total),
            segments.len() >= 1 ==> (segments.len() - 1) * length < total,
            forall|k: int| 0 <= k < segments.len() ==> segments@[k] == loop_pass(start_tick, total, length, loop_range.start_tick, k),
        decreases total_ticks - relative_start,
    {
        let remaining: u64 = total_ticks - relative_start;
        let segment_duration: u64 = if loop_length <= remaining { loop_length } else { remaining };
        let segment_start = if relative_start == 0 { start_tick } else { loop_range.start_tick };
        let ghost k = segments.len() as int;
        proof {
            assert((k + 1) * length == k * length + length) by (nonlinear_arith);
            assert(k * length >= 0) by (nonlinear_arith) requires k >= 0, length >= 1;
            if k > 0 {
                assert(k * length >= length) by (nonlinear_arith) requires k >= 1, length >= 1;
            }
            assert(k == 0 ==> k * length == 0) by (nonlinear_arith);
            assert(relative_start == k * length);
        }
        let pass = RecordingSegment {
            start_tick: segment_start,
            duration_ticks: segment_duration,
            relative_start_tick: relative_start,
            relative_end_tick: relative_start + segment_duration,
        };
        let ghost expected = loop_pass(start_tick, total, length, loop_range.start_tick, k);
        assert(pass.start_tick == expected.start_tick);
        assert(pass.duration_ticks == expected.duration_ticks);
        assert(pass.relative_start_tick == expected.relative_start_tick);
        assert(pass.relative_end_tick == expected.relative_end_tick);
        assert(pass == expected);
        segments.push(pass);
        relative_start = relative_start + segment_duration;
        proof {
            if segment_duration < loop_length {
                assert(relative_start == total_ticks);
            }
        }
    }
    proof {
        let n = segments.len() as int;
        assert(n >= 1);
        lemma_pass_count(total, length, n);
        assert(segments@ =~= recording_segments_spec(start_tick, duration_ticks, loop_recording, loop_range));
    }
    segments
}

/// `segs` cover `[0, total)` without gap or overlap: the first starts at
/// 0, each ends where the next begins, the last ends at `total`, and every
/// one is at least one tick long.
pub open spec fn is_partition(segs: Seq<RecordingSegment>, total: int) -> bool {
    &&& segs.len() >= 1
    &&& segs[0].relative_start_tick == 0
    &&& segs[segs.len() - 1].relative_end_tick == total
    &&& forall|k: int| 0 <= k < segs.len() ==> (#[trigger] segs[k]).duration_ticks >= 1
        && segs[k].relative_end_tick == segs[k].relative_start_tick + segs[k].duration_ticks
    &&& forall|k: int| 0 <= k < segs.len() - 1 ==> (#[trigger] segs[k + 1]).relative_start_tick == segs[k].relative_end_tick
}

/// Every pass but the last is a whole loop, and every pass after the first
/// starts at the loop start.
pub open spec fn whole_loop_passes(segs: Seq<RecordingSegment>, length: int, loop_start: TimelineTick) -> bool {
    forall|k: int| 0 <= k < segs.len() - 1 ==> (#[trigger] segs[k + 1]).start_tick == loop_start
        && segs[k].duration_ticks == length
}

/// The passes of a recording cover it exactly, the first pass starts where
/// the recording started, and when the recording is cut at the loop every
/// pass but the last is a whole loop that (after the first) starts at the
/// loop start.
pub proof fn law_segments_partition_recording(
    start_tick: TimelineTick,
    duration_ticks: u64,
    loop_recording: bool,
    loop_range: TimelineLoopRange,
)
    ensures
        is_partition(recording_segments_spec(start_tick, duration_ticks, loop_recording, loop_range), recording_length(duration_ticks)),
        recording_segments_spec(start_tick, duration_ticks, loop_recording, loop_range)[0].start_tick == start_tick,
        cuts_at_loop(loop_recording, loop_range) ==> whole_loop_passes(
            recording_segments_spec(start_tick, duration_ticks, loop_recording, loop_range),
            loop_range.end_tick.0 - loop_range.start_tick.0,
            loop_range.start_tick,
        ),
{
    let segs = recording_segments_spec(start_tick, duration_ticks, loop_recording, loop_range);
    let total = recording_length(duration_ticks);
    if !cuts_at_loop(loop_recording, loop_range) {
        assert(segs.len() == 1);
        assert(segs[0].relative_end_tick == total);
        assert(is_partition(segs, total));
    } else {
        let length = loop_range.end_tick.0 - loop_range.start_tick.0;
        let n = (total + length - 1) / length;
        assert(n >= 1) by (nonlinear_arith) requires length >= 1, total >= 1, n == (total + length - 1) / length;
        assert((n - 1) * length < total) by (nonlinear_arith)
            requires length >= 1, total >= 1, n == (total + length - 1) / length;
        assert(total <= n * length) by (nonlinear_arith)
            requires length >= 1, total >= 1, n == (total + length - 1) / length;
        assert(segs.len() == n);
        assert forall|k: int| 0 <= k < n implies (#[trigger] segs[k]).duration_ticks >= 1
            && segs[k].relative_end_tick == segs[k].relative_start_tick + segs[k].duration_ticks by {
            assert(k * length <= (n - 1) * length) by (nonlinear_arith) requires k <= n - 1, length >= 1;
            assert(k * length >= 0) by (nonlinear_arith) requires k >= 0, length >= 1;
        }
        assert forall|k: int| 0 <= k < n - 1 implies (#[trigger] segs[k + 1]).relative_start_tick == segs[k].relative_end_tick
            && segs[k + 1].start_tick == loop_range.start_tick && segs[k].duration_ticks == length by {
            assert((k + 1) * length <= (n - 1) * length) by (nonlinear_arith) requires k + 1 <= n - 1, length >= 1;
            assert((k + 1) * length == k * length + length) by (nonlinear_arith);
            assert(k * length >= 0) by (nonlinear_arith) requires k >= 0, length >= 1;
        }
        assert((n - 1) * length >= 0) by (nonlinear_arith) requires n >= 1, length >= 1;
        assert(total <= (n - 1) * length + length) by (nonlinear_arith) requires total <= n * length;
        assert(segs[0].relative_start_tick == 0);
        assert(segs[n - 1].relative_end_tick == total);
        assert(is_partition(segs, total));
        assert(whole_loop_passes(segs, length, loop_range.start_tick));
    }
}

/// Kind of a non-note MIDI event kept in a clip.
#[derive(Clone, Copy, Debug, PartialEq, Eq, Structural)]
pub enum MidiEventKind {
    ControlChange,
    ChannelPressure,
    PitchBend,
}

/// A note of a MIDI clip; ticks are relative to the clip start.
#[derive(Clone, Debug)]
pub struct MidiNote {
    pub id: String,
    pub note: u8,
    pub start_tick: TimelineTick,
    pub duration_ticks: u64,
    pub velocity: u8,
    pub channel: u8,
}

/// A controller, pressure or pitch-bend event of a MIDI clip.
#[derive(Clone, Debug)]
pub struct MidiEvent {
    pub id: String,
    pub kind: MidiEventKind,
    pub tick: TimelineTick,
    pub channel: u8,
    pub data1: u8,
    pub data2: u8,
}

/// A MIDI clip placed on a track.
#[derive(Clone, Debug)]
pub struct MidiClip {
    pub id: String,
    pub name: String,
    pub track_id: String,
    pub asset_id: Option<AssetId>,
    pub start_tick: TimelineTick,
    pub duration_ticks: u64,
    pub notes: Vec<MidiNote>,
    pub events: Vec<MidiEvent>,
    pub muted: bool,
    pub loop_enabled: bool,
}

pub struct NoteView {
    pub id: Seq<char>,
    pub note: u8,
    pub start: u64,
    pub duration: u64,
    pub velocity: u8,
    pub channel: u8,
}

pub struct EventView {
    pub id: Seq<char>,
    pub kind: MidiEventKind,
    pub tick: u64,
    pub channel: u8,
    pub data1: u8,
    pub data2: u8,
}

pub struct ClipView {
    pub id: Seq<char>,
    pub name: Seq<char>,
    pub track_id: Seq<char>,
    pub asset_id: Option<Seq<char>>,
    pub start_tick: u64,
    pub duration_ticks: u64,
    pub notes: Seq<NoteView>,
    pub events: Seq<EventView>,
    pub muted: bool,
    pub loop_enabled: bool,
}

impl View for MidiNote {
    type V = NoteView;

    open spec fn view(&self) -> NoteView {
        NoteView {
            id: self.id@,
            note: self.note,
            start: self.start_tick.0,
            duration: self.duration_ticks,
            velocity: self.velocity,
            channel: self.channel,
        }
    }
}

impl View for MidiEvent {
    type V = EventView;

    open spec fn view(&self) -> EventView {
        EventView {
            id: self.id@,
            kind: self.kind,
            tick: self.tick.0,
            channel: self.channel,
            data1: self.data1,
            data2: self.data2,
        }
    }
}

pub open spec fn notes_view(v: Seq<MidiNote>) -> Seq<NoteView> {
    v.map_values(|n: MidiNote| n@)
}

pub open spec fn events_view(v: Seq<MidiEvent>) -> Seq<EventView> {
    v.map_values(|e: MidiEvent| e@)
}

impl View for MidiClip {
    type V = ClipView;

    open spec fn view(&self) -> ClipView {
        ClipView {
            id: self.id@,
            name: self.name@,
            track_id: self.track_id@,
            asset_id: id_view(self.asset_id),
            start_tick: self.start_tick.0,
            duration_ticks: self.duration_ticks,
            notes: notes_view(self.notes@),
            events: events_view(self.events@),
            muted: self.muted,
            loop_enabled: self.loop_enabled,
        }
    }
}

/// The id of a copy of an item made for clip `clip_id`.
pub open spec fn derived_id(id: Seq<char>, clip_id: Seq<char>) -> Seq<char> {
    id + seq![':'] + clip_id
}

/// The part of note `n` that falls in `[lo, hi)`, moved to start at `lo`;
/// none when they do not overlap. A note's end saturates at `u64::MAX`.
pub open spec fn slice_note(n: NoteView, lo: u64, hi: u64, clip_id: Seq<char>) -> Option<NoteView> {
    let end = min_int(n.start + n.duration, u64::MAX as int);
    let overlap_start = max_int(n.start as int, lo as int);
    let overlap_end = min_int(end, hi as int);
    if overlap_end > overlap_start {
        Some(NoteView {
            id: derived_id(n.id, clip_id),
            note: n.note,
            start: (overlap_start - lo) as u64,
            duration: (overlap_end - overlap_start) as u64,
            velocity: n.velocity,
            channel: n.channel,
        })
    } else {
        None
    }
}

/// The slices of `notes` that fall in `[lo, hi)`, in order.
pub open spec fn sliced_notes(notes: Seq<NoteView>, lo: u64, hi: u64, clip_id: Seq<char>) -> Seq<NoteView>
    decreases notes.len(),
{
    if notes.len() == 0 {
        seq![]
    } else {
        let before = sliced_notes(notes.drop_last(), lo, hi, clip_id);
        match slice_note(notes.last(), lo, hi, clip_id) {
            Some(n) => before.push(n),
            None => before,
        }
    }
}

/// The events of `events` in `[lo, hi)`, moved by `lo`, in order.
pub open spec fn sliced_events(events: Seq<EventView>, lo: u64, hi: u64, clip_id: Seq<char>) -> Seq<EventView>
    decreases events.len(),
{
    if events.len() == 0 {
        seq![]
    } else {
        let before = sliced_events(events.drop_last(), lo, hi, clip_id);
        let e = events.last();
        if lo <= e.tick && e.tick < hi {
            before.push(EventView { id: derived_id(e.id, clip_id), kind: e.kind, tick: (e.tick - lo) as u64, channel: e.channel, data1: e.data1, data2: e.data2 })
        } else {
            before
        }
    }
}

/// The clip that holds the part of `source` covered by `segment`, placed
/// at the segment's timeline position on `track_id`.
pub open spec fn sliced_clip(source: ClipView, track_id: Seq<char>, segment: RecordingSegment, asset_id: Option<Seq<char>>, clip_id: Seq<char>) -> ClipView {
    ClipView {
        id: clip_id,
        name: source.name,
        track_id,
        asset_id,
        start_tick: segment.start_tick.0,
        duration_ticks: segment.duration_ticks,
        notes: sliced_notes(source.notes, segment.relative_start_tick, segment.relative_end_tick, clip_id),
        events: sliced_events(source.events, segment.relative_start_tick, segment.relative_end_tick, clip_id),
        muted: false,
        loop_enabled: false,
    }
}

/// The clip holding the part of a recorded MIDI clip covered by one pass.
pub fn slice_recorded_midi(
    source: &MidiClip,
    track_id: &str,
    segment: RecordingSegment,
    asset_id: Option<AssetId>,
    clip_id: String,
) -> (clip: MidiClip)
    ensures
        clip@ == sliced_clip(source@, track_id@, segment, id_view(asset_id), clip_id@),
{
    let lo = segment.relative_start_tick;
    let hi = segment.relative_end_tick;
    let mut notes: Vec<MidiNote> = Vec::new();
    let mut i: usize = 0;
    proof {
        reveal_strlit(":");
    }
    while i < source.notes.len()
        invariant
            i <= source.notes.len(),
            ":"@ == seq![':'],
            notes_view(notes@) == sliced_notes(notes_view(source.notes@).take(i as int), lo, hi, clip_id@),
        decreases source.notes.len() - i,
    {
        let note = &source.notes[i];
        let note_start = note.start_tick.0;
        let note_end: u64 = match note_start.checked_add(note.duration_ticks) {
            Some(e) => e,
            None => u64::MAX,
        };
        let overlap_start: u64 = if note_start >= lo { note_start } else { lo };
        let overlap_end: u64 = if note_end <= hi { note_end } else { hi };
        proof {
            assert(notes_view(source.notes@).take(i as int + 1).drop_last() =~= notes_view(source.notes@).take(i as int));
            assert(notes_view(source.notes@).take(i as int + 1).last() == source.notes@[i as int]@);
        }
        if overlap_end > overlap_start {
            let id = concat3(note.id.as_str(), ":", clip_id.as_str());
            let ghost before = notes_view(notes@);
            notes.push(MidiNote {
                id,
                note: note.note,
                start_tick: TimelineTick(overlap_start - lo),
                duration_ticks: overlap_end - overlap_start,
                velocity: note.velocity,
                channel: note.channel,
            });
            assert(notes_view(notes@) =~= before.push(notes@[notes@.len() - 1]@));
        }
        i += 1;
    }
    let mut events: Vec<MidiEvent> = Vec::new();
    let mut j: usize = 0;
    while j < source.events.len()
        invariant
            j <= source.events.len(),
            ":"@ == seq![':'],
            events_view(events@) == sliced_events(events_view(source.events@).take(j as int), lo, hi, clip_id@),
        decreases source.events.len() - j,
    {
        let event = &source.events[j];
        proof {
            assert(events_view(source.events@).take(j as int + 1).drop_last() =~= events_view(source.events@).take(j as int));
            assert(events_view(source.events@).take(j as int + 1).last() == source.events@[j as int]@);
        }
        if event.tick.0 >= lo && event.tick.0 < hi {
            let id = concat3(event.id.as_str(), ":", clip_id.as_str());
            let ghost before = events_view(events@);
            events.push(MidiEvent {
                id,
                kind: event.kind,
                tick: TimelineTick(event.tick.0 - lo),
                channel: event.channel,
                data1: event.data1,
                data2: event.data2,
            });
            assert(events_view(events@) =~= before.push(events@[events@.len() - 1]@));
        }
        j += 1;
    }
    proof {
        assert(notes_view(source.notes@).take(source.notes.len() as int) =~= notes_view(source.notes@));
        assert(events_view(source.events@).take(source.events.len() as int) =~= events_view(source.events@));
    }
    MidiClip {
        id: clip_id,
        name: source.name.clone(),
        track_id: to_string(track_id),
        asset_id,
        start_tick: segment.start_tick,
        duration_ticks: segment.duration_ticks,
        notes,
        events,
        muted: false,
        loop_enabled: false,
    }
}

/// One event of a recorded MIDI stream, its time already converted to a
/// tick relative to the start of the recording.
#[derive(Clone, Copy, Debug, PartialEq, Eq, Structural)]
pub struct RecordedMidiEvent {
    pub tick: u64,
    pub status: u8,
    pub channel: u8,
    pub data1: u8,
    pub data2: u8,
}

/// A note that has started and not yet ended: channel, key, start tick and
/// velocity.
pub type OpenNote = (u8, u8, u64, u8);

/// What reading a recorded stream has produced so far.
pub struct PairState {
    pub notes: Seq<NoteView>,
    pub events: Seq<EventView>,
    pub open: Seq<OpenNote>,
    pub last: int,
}

/// MIDI channels run from 1 to 16.
pub open spec fn clamp_channel(c: u8) -> u8 {
    if c < 1 { 1 } else if c > 16 { 16 } else { c }
}

/// The position of the open note on `channel` with key `note`, or -1.
pub open spec fn find_open(open: Seq<OpenNote>, channel: u8, note: u8) -> int
    decreases open.len(),
{
    if open.len() == 0 {
        -1
    } else if open.last().0 == channel && open.last().1 == note {
        open.len() - 1
    } else {
        find_open(open.drop_last(), channel, note)
    }
}

/// Reads event number `index`: a note-off (or a note-on of velocity 0) ends
/// the open note of its channel and key, a note-on opens one (replacing an
/// open note of the same channel and key), controller, channel-pressure and
/// pitch-bend messages are kept as events, and anything else is ignored.
pub open spec fn pair_step(st: PairState, index: nat, ev: RecordedMidiEvent) -> PairState {
    let tick = ev.tick;
    let last = max_int(st.last, tick as int);
    let kind = ev.status & 0xf0u8;
    let channel = clamp_channel(ev.channel);
    if kind == 0x80u8 || (kind == 0x90u8 && ev.data2 == 0) {
        let p = find_open(st.open, channel, ev.data1);
        if p >= 0 {
            let start = st.open[p].2;
            let end = max_int(tick as int, start + 1);
            PairState {
                notes: st.notes.push(NoteView {
                    id: "note:recorded:"@ + decimal(index),
                    note: ev.data1,
                    start,
                    duration: (end - start) as u64,
                    velocity: st.open[p].3,
                    channel,
                }),
                events: st.events,
                open: st.open.remove(p),
                last: max_int(last, end),
            }
        } else {
            PairState { notes: st.notes, events: st.events, open: st.open, last }
        }
    } else if kind == 0x90u8 {
        let p = find_open(st.open, channel, ev.data1);
        let entry: OpenNote = (channel, ev.data1, tick, ev.data2);
        PairState {
            notes: st.notes,
            events: st.events,
            open: if p >= 0 { st.open.update(p, entry) } else { st.open.push(entry) },
            last,
        }
    } else if kind == 0xb0u8 || kind == 0xd0u8 || kind == 0xe0u8 {
        let event = EventView {
            id: "event:recorded:"@ + decimal(index),
            kind: if kind == 0xb0u8 { MidiEventKind::ControlChange } else if kind == 0xd0u8 { MidiEventKind::ChannelPressure } else { MidiEventKind::PitchBend },
            tick,
            channel,
            data1: ev.data1,
            data2: if kind == 0xd0u8 { 0 } else { ev.data2 },
        };
        PairState { notes: st.notes, events: st.events.push(event), open: st.open, last }
    } else {
        PairState { notes: st.notes, events: st.events, open: st.open, last }
    }
}

/// The state after reading all of `events`, in order.
pub open spec fn pair_fold(events: Seq<RecordedMidiEvent>) -> PairState
    decreases events.len(),
{
    if events.len() == 0 {
        PairState { notes: seq![], events: seq![], open: seq![], last: 0 }
    } else {
        pair_step(pair_fold(events.drop_last()), (events.len() - 1) as nat, events.last())
    }
}

/// The note that ends an open note left at the end of the stream.
pub open spec fn closing_note(o: OpenNote, last: int) -> NoteView {
    let end = max_int(last, o.2 + 1);
    NoteView {
        id: "note:recorded:open:"@ + decimal(o.0 as nat) + seq![':'] + decimal(o.1 as nat),
        note: o.1,
        start: o.2,
        duration: (end - o.2) as u64,
        velocity: o.3,
        channel: o.0,
    }
}

/// The notes and the last tick once the first `m` open notes are ended at
/// the end of the stream.
pub open spec fn closed(st: PairState, m: int) -> (Seq<NoteView>, int)
    decreases m,
{
    if m <= 0 {
        (st.notes, st.last)
    } else {
        let (notes, last) = closed(st, m - 1);
        let n = closing_note(st.open[m - 1], last);
        (notes.push(n), max_int(last, n.start + n.duration))
    }
}

/// The latest end of a note, 0 for none.
pub open spec fn max_note_end(notes: Seq<NoteView>) -> int
    decreases notes.len(),
{
    if notes.len() == 0 { 0 } else { max_int(max_note_end(notes.drop_last()), notes.last().start + notes.last().duration) }
}

/// The tick after the latest event, 0 for none.
pub open spec fn max_event_end(events: Seq<EventView>) -> int
    decreases events.len(),
{
    if events.len() == 0 { 0 } else { max_int(max_event_end(events.drop_last()), events.last().tick + 1) }
}

/// The clip built from a recorded stream: its notes in the order they
/// ended (notes still open at the end close at the last tick), its
/// controller events in order, and a duration that covers all of them (at
/// least one tick).
pub open spec fn recorded_clip(events: Seq<RecordedMidiEvent>, clip_id: Seq<char>, track_id: Seq<char>, start_tick: TimelineTick) -> ClipView {
    let st = pair_fold(events);
    let (notes, last) = closed(st, st.open.len() as int);
    ClipView {
        id: clip_id,
        name: "Recorded MIDI"@,
        track_id,
        asset_id: None,
        start_tick: start_tick.0,
        duration_ticks: max_int(max_int(max_int(max_note_end(notes), max_event_end(st.events)), last), 1) as u64,
        notes,
        events: st.events,
        muted: false,
        loop_enabled: false,
    }
}

proof fn lemma_find_open_bounds(open: Seq<OpenNote>, channel: u8, note: u8)
    ensures
        -1 <= find_open(open, channel, note) < open.len(),
        find_open(open, channel, note) >= 0 ==> open[find_open(open, channel, note)].0 == channel
            && open[find_open(open, channel, note)].1 == note,
    decreases open.len(),
{
    if open.len() > 0 {
        lemma_find_open_bounds(open.drop_last(), channel, note);
    }
}

spec fn open_fits(open: Seq<OpenNote>) -> bool {
    forall|k: int| 0 <= k < open.len() ==> (#[trigger] open[k]).2 < u64::MAX
}

spec fn notes_fit(notes: Seq<NoteView>) -> bool {
    forall|k: int| 0 <= k < notes.len() ==> (#[trigger] notes[k]).start + notes[k].duration <= u64::MAX
}

spec fn events_fit(events: Seq<EventView>) -> bool {
    forall|k: int| 0 <= k < events.len() ==> (#[trigger] events[k]).tick < u64::MAX
}

fn find_open_note(open: &Vec<OpenNote>, channel: u8, note: u8) -> (p: Option<usize>)
    ensures
        match p {
            Some(i) => i as int == find_open(open@, channel, note),
            None => find_open(open@, channel, note) == -1,
        },
{
    let mut i = open.len();
    assert(open@.take(i as int) =~= open@);
    while i > 0
        invariant
            i <= open.len(),
            find_open(open@, channel, note) == find_open(open@.take(i as int), channel, note),
        decreases i,
    {
        let entry = open[i - 1];
        assert(open@.take(i as int).drop_last() =~= open@.take(i as int - 1));
        if entry.0 == channel && entry.1 == note {
            return Some(i - 1);
        }
        i -= 1;
    }
    assert(open@.take(0) =~= Seq::<OpenNote>::empty());
    None
}

fn indexed_id(prefix: &str, index: u64) -> (id: String)
    ensures
        id@ == prefix@ + decimal(index as nat),
{
    let digits = u64_to_decimal(index);
    concat2(prefix, digits.as_str())
}

/// Builds the clip of a recorded MIDI stream; see `recorded_clip`.
pub fn assemble_recorded_midi(
    events: &Vec<RecordedMidiEvent>,
    clip_id: String,
    track_id: &str,
    start_tick: TimelineTick,
) -> (clip: MidiClip)
    requires
        forall|k: int| 0 <= k < events.len() ==> (#[trigger] events[k]).tick < u64::MAX,
    ensures
        clip@ == recorded_clip(events@, clip_id@, track_id@, start_tick),
{
    let mut notes: Vec<MidiNote> = Vec::new();
    let mut kept: Vec<MidiEvent> = Vec::new();
    let mut open: Vec<OpenNote> = Vec::new();
    let mut last_tick: u64 = 0;
    let mut index: usize = 0;
    while index < events.len()
        invariant
            index <= events.len(),
            forall|k: int| 0 <= k < events.len() ==> (#[trigger] events[k]).tick < u64::MAX,
            ({
                let st = pair_fold(events@.take(index as int));
                &&& notes_view(notes@) == st.notes
                &&& events_view(kept@) == st.events
                &&& open@ == st.open
                &&& last_tick == st.last
            }),
            open_fits(open@),
            notes_fit(notes_view(notes@)),
            events_fit(events_view(kept@)),
        decreases events.len() - index,
    {
        let ev = events[index];
        let ghost st = pair_fold(events@.take(index as int));
        proof {
            assert(events@.take(index as int + 1).drop_last() =~= events@.take(index as int));
            assert(events@.take(index as int + 1).last() == ev);
        }
        let tick = ev.tick;
        if tick > last_tick {
            last_tick = tick;
        }
        let kind = ev.status & 0xf0u8;
        let channel: u8 = if ev.channel < 1 { 1 } else if ev.channel > 16 { 16 } else { ev.channel };
        if kind == 0x80u8 || (kind == 0x90u8 && ev.data2 == 0) {
            let found = find_open_note(&open, channel, ev.data1);
            proof { lemma_find_open_bounds(open@, channel, ev.data1); }
            match found {
                Some(p) => {
                    let entry = open[p];
                    let start = entry.2;
                    let end: u64 = if tick >= start + 1 { tick } else { start + 1 };
                    let id = indexed_id("note:recorded:", index as u64);
                    let ghost before = notes_view(notes@);
                    notes.push(MidiNote {
                        id,
                        note: ev.data1,
                        start_tick: TimelineTick(start),
                        duration_ticks: end - start,
                        velocity: entry.3,
                        channel,
                    });
                    assert(notes_view(notes@) =~= before.push(notes@[notes@.len() - 1]@));
                    open.remove(p);
                    if end > last_tick {
                        last_tick = end;
                    }
                },
                None => {},
            }
        } else if kind == 0x90u8 {
            let found = find_open_note(&open, channel, ev.data1);
            proof { lemma_find_open_bounds(open@, channel, ev.data1); }
            let entry: OpenNote = (channel, ev.data1, tick, ev.data2);
            match found {
                Some(p) => {
                    open.set(p, entry);
                },
                None => {
                    open.push(entry);
                },
            }
        } else if kind == 0xb0u8 || kind == 0xd0u8 || kind == 0xe0u8 {
            let id = indexed_id("event:recorded:", index as u64);
            let event_kind = if kind == 0xb0u8 {
                MidiEventKind::ControlChange
            } else if kind == 0xd0u8 {
                MidiEventKind::ChannelPressure
            } else {
                MidiEventKind::PitchBend
            };
            let ghost before = events_view(kept@);
            kept.push(MidiEvent {
                id,
                kind: event_kind,
                tick: TimelineTick(tick),
                channel,
                data1: ev.data1,
                data2: if kind == 0xd0u8 { 0 } else { ev.data2 },
            });
            assert(events_view(kept@) =~= before.push(kept@[kept@.len() - 1]@));
        }
        index += 1;
    }
    assert(events@.take(events.len() as int) =~= events@);
    let ghost st = pair_fold(events@);
    let mut m: usize = 0;
    while m < open.len()
        invariant
            m <= open.len(),
            open@ == st.open,
            open_fits(open@),
            notes_fit(notes_view(notes@)),
            events_fit(events_view(kept@)),
            ({
                let (ns, l) = closed(st, m as int);
                notes_view(notes@) == ns && last_tick == l
            }),
        decreases open.len() - m,
    {
        let entry = open[m];
        assert(entry.2 < u64::MAX);
        let end: u64 = if last_tick >= entry.2 + 1 { last_tick } else { entry.2 + 1 };
        let mut id = indexed_id("note:recorded:open:", entry.0 as u64);
        append_str(&mut id, ":");
        let digits = u64_to_decimal(entry.1 as u64);
        append_str(&mut id, digits.as_str());
        proof {
            reveal_strlit(":");
            assert(":"@ =~= seq![':']);
            assert(id@ =~= "note:recorded:open:"@ + decimal(entry.0 as nat) + seq![':'] + decimal(entry.1 as nat));
        }
        let ghost before = notes_view(notes@);
        notes.push(MidiNote {
            id,
            note: entry.1,
            start_tick: TimelineTick(entry.2),
            duration_ticks: end - entry.2,
            velocity: entry.3,
            channel: entry.0,
        });
        assert(notes_view(notes@) =~= before.push(notes@[notes@.len() - 1]@));
        proof {
            let (ns, l) = closed(st, m as int);
            assert(notes@[notes@.len() - 1]@ == closing_note(st.open[m as int], l));
            assert(closed(st, m as int + 1) == (ns.push(closing_note(st.open[m as int], l)), max_int(l, end as int)));
        }
        last_tick = end;
        m += 1;
    }
    let mut duration: u64 = 0;
    let mut i: usize = 0;
    while i < notes.len()
        invariant
            i <= notes.len(),
            duration == max_note_end(notes_view(notes@).take(i as int)),
            notes_fit(notes_view(notes@)),
        decreases notes.len() - i,
    {
        assert(notes_view(notes@).take(i as int + 1).drop_last() =~= notes_view(notes@).take(i as int));
        assert(notes_view(notes@)[i as int] == notes@[i as int]@);
        let end = notes[i].start_tick.0 + notes[i].duration_ticks;
        if end > duration {
            duration = end;
        }
        i += 1;
    }
    assert(notes_view(notes@).take(notes.len() as int) =~= notes_view(notes@));
    let mut j: usize = 0;
    let ghost note_end = duration as int;
    let mut event_end: u64 = 0;
    while j < kept.len()
        invariant
            j <= kept.len(),
            event_end == max_event_end(events_view(kept@).take(j as int)),
            events_fit(events_view(kept@)),
        decreases kept.len() - j,
    {
        assert(events_view(kept@).take(j as int + 1).drop_last() =~= events_view(kept@).take(j as int));
        assert(events_view(kept@)[j as int] == kept@[j as int]@);
        let end = kept[j].tick.0 + 1;
        if end > event_end {
            event_end = end;
        }
        j += 1;
    }
    assert(events_view(kept@).take(kept.len() as int) =~= events_view(kept@));
    if event_end > duration {
        duration = event_end;
    }
    if last_tick > duration {
        duration = last_tick;
    }
    if duration < 1 {
        duration = 1;
    }
    MidiClip {
        id: clip_id,
        name: to_string("Recorded MIDI"),
        track_id: to_string(track_id),
        asset_id: None,
        start_tick,
        duration_ticks: duration,
        notes,
        events: kept,
        muted: false,
        loop_enabled: false,
    }
}

} // verus!
