//! Starting a hardware recording: when a take may start, whether it only
//! captures MIDI, what the capture records about its context, and what the
//! user is told when the capture metadata could not be saved.

use vstd::prelude::*;
use crate::take_placement::TrackKind;
use crate::text::{append_str, concat2, concat3, str_eq, to_string};

verus! {

broadcast use vstd::string::group_string_axioms;

/// A track as recording sees it.
pub struct ArmableTrack {
    pub id: String,
    pub kind: TrackKind,
    pub armed: bool,
}

/// Whether any of `tracks` is armed.
pub open spec fn any_armed(tracks: Seq<ArmableTrack>) -> bool {
    exists|i: int| 0 <= i < tracks.len() && #[trigger] tracks[i].armed
}

/// Whether every armed track of `tracks` is an instrument track.
pub open spec fn armed_are_instruments(tracks: Seq<ArmableTrack>) -> bool {
    forall|i: int| 0 <= i < tracks.len() && #[trigger] tracks[i].armed ==> tracks[i].kind == TrackKind::Instrument
}

/// Whether `id` is one of `known`.
pub open spec fn is_known(known: Seq<String>, id: Seq<char>) -> bool {
    exists|i: int| 0 <= i < known.len() && #[trigger] known[i]@ == id
}

/// Whether a take may start, and whether it records MIDI only: Safe Mode
/// blocks recording, at least one track must be armed, and another take
/// must name a registered recording session.
pub open spec fn start_check(safe_mode: bool, tracks: Seq<ArmableTrack>, session: Option<Seq<char>>, known: Seq<String>) -> Result<bool, Seq<char>> {
    if safe_mode {
        Err("Safe Mode blocks new hardware recordings; existing Inbox assets remain available for export."@)
    } else if !any_armed(tracks) {
        Err("No tracks are armed for recording."@)
    } else {
        match session {
            Some(s) => if !is_known(known, s) {
                Err("Recording Session is not registered: "@ + s)
            } else {
                Ok(armed_are_instruments(tracks))
            },
            None => Ok(armed_are_instruments(tracks)),
        }
    }
}

/// Decides whether a new take (or, with `recording_session_id`, another take
/// of that session) may start; `Ok` says whether only MIDI is recorded,
/// which is when every armed track is an instrument track.
pub fn check_recording_start(
    safe_mode: bool,
    tracks: &Vec<ArmableTrack>,
    recording_session_id: Option<&str>,
    known_sessions: &Vec<String>,
) -> (r: Result<bool, String>)
    ensures
        match start_check(safe_mode, tracks@, match recording_session_id { Some(s) => Some(s@), None => None }, known_sessions@) {
            Ok(m) => r == Ok::<bool, String>(m),
            Err(m) => r matches Err(e) && e@ == m,
        },
{
    if safe_mode {
        return Err(to_string("Safe Mode blocks new hardware recordings; existing Inbox assets remain available for export."));
    }
    let mut armed = false;
    let mut midi_only = true;
    let mut i: usize = 0;
    while i < tracks.len()
        invariant
            i <= tracks@.len(),
            armed == exists|j: int| 0 <= j < i && #[trigger] tracks@[j].armed,
            midi_only == forall|j: int| 0 <= j < i && #[trigger] tracks@[j].armed ==> tracks@[j].kind == TrackKind::Instrument,
        decreases tracks@.len() - i,
    {
        if tracks[i].armed {
            armed = true;
            if tracks[i].kind != TrackKind::Instrument {
                midi_only = false;
            }
        }
        i += 1;
    }
    if !armed {
        return Err(to_string("No tracks are armed for recording."));
    }
    if let Some(session) = recording_session_id {
        let mut found = false;
        let mut k: usize = 0;
        while k < known_sessions.len()
            invariant
                k <= known_sessions@.len(),
                found == exists|j: int| 0 <= j < k && #[trigger] known_sessions@[j]@ == session@,
            decreases known_sessions@.len() - k,
        {
            if str_eq(known_sessions[k].as_str(), session) {
                found = true;
            }
            k += 1;
        }
        if !found {
            return Err(concat2("Recording Session is not registered: ", session));
        }
    }
    Ok(midi_only)
}

/// The ids of the armed tracks, in order, from the first `n` tracks.
pub open spec fn armed_ids(tracks: Seq<ArmableTrack>, n: int) -> Seq<Seq<char>>
    decreases n,
{
    if n <= 0 {
        Seq::empty()
    } else {
        let rest = armed_ids(tracks, n - 1);
        if tracks[n - 1].armed { rest.push(tracks[n - 1].id@) } else { rest }
    }
}

/// The ids of the armed tracks, in order.
pub fn armed_track_ids(tracks: &Vec<ArmableTrack>) -> (ids: Vec<String>)
    ensures
        ids@.len() == armed_ids(tracks@, tracks@.len() as int).len(),
        forall|i: int| 0 <= i < ids@.len() ==> (#[trigger] ids@[i])@ == armed_ids(tracks@, tracks@.len() as int)[i],
{
    let mut ids: Vec<String> = Vec::new();
    let mut i: usize = 0;
    while i < tracks.len()
        invariant
            i <= tracks@.len(),
            ids@.len() == armed_ids(tracks@, i as int).len(),
            forall|j: int| 0 <= j < ids@.len() ==> (#[trigger] ids@[j])@ == armed_ids(tracks@, i as int)[j],
        decreases tracks@.len() - i,
    {
        if tracks[i].armed {
            ids.push(tracks[i].id.clone());
        }
        i += 1;
    }
    ids
}

/// The name of the selected input channel among `(index, name)` channels:
/// the first channel with that index.
pub fn input_channel_name(selected: Option<u32>, channels: &Vec<(u32, String)>) -> (name: Option<String>)
    ensures
        match selected {
            None => name is None,
            Some(s) => match name {
                Some(n) => exists|i: int| 0 <= i < channels@.len() && channels@[i].0 == s && channels@[i].1@ == n@
                    && forall|j: int| 0 <= j < i ==> (#[trigger] channels@[j]).0 != s,
                None => forall|j: int| 0 <= j < channels@.len() ==> (#[trigger] channels@[j]).0 != s,
            },
        },
{
    let s = match selected {
        Some(s) => s,
        None => return None,
    };
    let mut i: usize = 0;
    while i < channels.len()
        invariant
            i <= channels@.len(),
            selected == Some(s),
            forall|j: int| 0 <= j < i ==> (#[trigger] channels@[j]).0 != s,
        decreases channels@.len() - i,
    {
        if channels[i].0 == s {
            let n = channels[i].1.clone();
            assert(channels@[i as int].0 == s && channels@[i as int].1@ == n@);
            return Some(n);
        }
        i += 1;
    }
    None
}

/// The tick at which a take starts on the timeline: the transport position
/// when recording began, moved back by the input latency, not before 0.
pub fn capture_start_tick(timeline_tick: Option<u64>, latency_ticks: u64) -> (t: u64)
    ensures
        t == ({
            let at = match timeline_tick { Some(v) => v, None => 0 };
            if at >= latency_ticks { (at - latency_ticks) as u64 } else { 0 }
        }),
{
    let at = match timeline_tick {
        Some(v) => v,
        None => 0,
    };
    at.saturating_sub(latency_ticks)
}

/// What the user is told when the capture metadata could not be saved
/// (`error`), given whether stopping the recording again succeeded.
pub fn capture_save_failure(error: &str, rollback: Result<(), String>) -> (m: String)
    ensures
        m@ == match rollback {
            Ok(()) => "Recording capture metadata could not be saved; recording was stopped again: "@ + error@,
            Err(r) => "Recording capture metadata could not be saved ("@ + error@
                + "), and the active recording could not be stopped ("@ + r@ + ")."@,
        },
{
    match rollback {
        Ok(()) => concat2("Recording capture metadata could not be saved; recording was stopped again: ", error),
        Err(r) => {
            let mut m = concat3("Recording capture metadata could not be saved (", error, "), and the active recording could not be stopped (");
            append_str(&mut m, r.as_str());
            append_str(&mut m, ").");
            m
        },
    }
}

} // verus!
