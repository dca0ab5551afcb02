//! Quantized action sequences and requests to the external audio engine.
//!
//! The engine executes ordered lists of primitive actions against a shared
//! tempo clock. The builders here decide exactly which actions each of the
//! scheduler's three sequence kinds contains; handing a built sequence to
//! the engine is the caller's business.

use crate::beat::{fill_start_interval, Beat, DrumFill, DrumFillEvent};
use vstd::prelude::*;

verus! {

/// Tempo of the shared clock, in beats per minute.
pub const TEMPO_BPM: u64 = 128;

/// Number of beats in a bar.
pub const BEATS_PER_BAR: u64 = 4;

/// Fade, in milliseconds, applied whenever a previously-active sequence is
/// stopped: long enough to avoid an audible click, short enough not to smear
/// the beat. No sequence is ever cut abruptly.
pub const SHORT_FADE_MS: u64 = 10;

/// The audio assets the scheduler plays: the backing loop and one sample per
/// fill length.
#[derive(Debug, Clone, Copy, PartialEq, Eq, Structural)]
pub enum Sound {
    DrumLoop,
    Fill(DrumFill),
}

/// A marker emitted by a running sequence, observed later by polling: either
/// a beat announcement from the beat tracker or a lifecycle event from a
/// fill-and-loop sequence.
#[derive(Debug, Clone, Copy, PartialEq, Eq, Structural)]
pub enum AudioEvent {
    Beat(Beat),
    Fill(DrumFillEvent),
}

/// One primitive action of a quantized sequence. Waits are expressed in
/// musical beats, resolved against the shared tempo clock; an interval wait
/// pauses until the clock reaches the next multiple of the given number of
/// beats, a duration wait pauses for exactly that many beats.
#[derive(Debug, Clone, Copy, PartialEq, Eq, Structural)]
pub enum Action {
    WaitForInterval { beats: u64 },
    WaitForDuration { beats: u64 },
    Play { sound: Sound },
    StopInstance { handle: u64, fade_ms: u64 },
    MarkLoopStart,
    Emit { marker: AudioEvent },
}

/// A request handed to the external engine. `Schedule` names the handle
/// under which the caller will track the new sequence's markers.
#[derive(Debug, Clone, PartialEq)]
pub enum EngineCall {
    Schedule { handle: u64, actions: Vec<Action> },
    Stop { handle: u64, fade_ms: u64 },
    StartClock { tempo_bpm: u64 },
    StopClock,
}

/// The beat tracker: align to the next beat boundary, then forever announce
/// each beat of the bar, one marker per beat.
pub open spec fn beat_tracker_actions() -> Seq<Action> {
    seq![
        Action::WaitForInterval { beats: 1 },
        Action::MarkLoopStart,
        Action::Emit { marker: AudioEvent::Beat(Beat::One) },
        Action::WaitForDuration { beats: 1 },
        Action::Emit { marker: AudioEvent::Beat(Beat::Two) },
        Action::WaitForDuration { beats: 1 },
        Action::Emit { marker: AudioEvent::Beat(Beat::Three) },
        Action::WaitForDuration { beats: 1 },
        Action::Emit { marker: AudioEvent::Beat(Beat::Four) },
        Action::WaitForDuration { beats: 1 },
    ]
}

/// The backing loop: wait for the next beat boundary, mark the loop point,
/// play the loop sound, wait one bar, repeat.
pub open spec fn loop_actions() -> Seq<Action> {
    seq![
        Action::WaitForInterval { beats: 1 },
        Action::MarkLoopStart,
        Action::Play { sound: Sound::DrumLoop },
        Action::WaitForDuration { beats: BEATS_PER_BAR },
    ]
}

/// A fill followed by a loop restart: wait for the fill's start interval,
/// announce the start, stop the superseded loop with a short fade, play the
/// fill, wait until the next downbeat (so the fill consumes exactly one bar
/// regardless of its nominal length), announce the finish, then loop as the
/// backing loop does.
pub open spec fn fill_and_loop_actions(fill: DrumFill, previous_loop_handle: u64) -> Seq<Action> {
    seq![
        Action::WaitForInterval { beats: fill_start_interval(fill) as u64 },
        Action::Emit { marker: AudioEvent::Fill(DrumFillEvent::Start) },
        Action::StopInstance { handle: previous_loop_handle, fade_ms: SHORT_FADE_MS },
        Action::Play { sound: Sound::Fill(fill) },
        Action::WaitForInterval { beats: BEATS_PER_BAR },
        Action::Emit { marker: AudioEvent::Fill(DrumFillEvent::Finish) },
        Action::MarkLoopStart,
        Action::Play { sound: Sound::DrumLoop },
        Action::WaitForDuration { beats: BEATS_PER_BAR },
    ]
}

/// Build the beat-tracker sequence.
pub fn beat_tracker_sequence() -> (actions: Vec<Action>)
    ensures
        actions@ == beat_tracker_actions(),
{
    let mut actions: Vec<Action> = Vec::new();
    actions.push(Action::WaitForInterval { beats: 1 });
    actions.push(Action::MarkLoopStart);
    actions.push(Action::Emit { marker: AudioEvent::Beat(Beat::One) });
    actions.push(Action::WaitForDuration { beats: 1 });
    actions.push(Action::Emit { marker: AudioEvent::Beat(Beat::Two) });
    actions.push(Action::WaitForDuration { beats: 1 });
    actions.push(Action::Emit { marker: AudioEvent::Beat(Beat::Three) });
    actions.push(Action::WaitForDuration { beats: 1 });
    actions.push(Action::Emit { marker: AudioEvent::Beat(Beat::Four) });
    actions.push(Action::WaitForDuration { beats: 1 });
    proof {
        assert(actions@ =~= beat_tracker_actions());
    }
    actions
}

/// Build the backing-loop sequence.
pub fn loop_sequence() -> (actions: Vec<Action>)
    ensures
        actions@ == loop_actions(),
{
    let mut actions: Vec<Action> = Vec::new();
    actions.push(Action::WaitForInterval { beats: 1 });
    actions.push(Action::MarkLoopStart);
    actions.push(Action::Play { sound: Sound::DrumLoop });
    actions.push(Action::WaitForDuration { beats: BEATS_PER_BAR });
    proof {
        assert(actions@ =~= loop_actions());
    }
    actions
}

/// Build the fill-and-loop sequence that supersedes the loop currently
/// tracked under `previous_loop_handle`.
pub fn fill_and_loop_sequence(fill: DrumFill, previous_loop_handle: u64) -> (actions: Vec<
    Action,
>)
    ensures
        actions@ == fill_and_loop_actions(fill, previous_loop_handle),
{
    let mut actions: Vec<Action> = Vec::new();
    actions.push(Action::WaitForInterval { beats: fill.start_interval() });
    actions.push(Action::Emit { marker: AudioEvent::Fill(DrumFillEvent::Start) });
    actions.push(
        Action::StopInstance { handle: previous_loop_handle, fade_ms: SHORT_FADE_MS },
    );
    actions.push(Action::Play { sound: Sound::Fill(fill) });
    actions.push(Action::WaitForInterval { beats: BEATS_PER_BAR });
    actions.push(Action::Emit { marker: AudioEvent::Fill(DrumFillEvent::Finish) });
    actions.push(Action::MarkLoopStart);
    actions.push(Action::Play { sound: Sound::DrumLoop });
    actions.push(Action::WaitForDuration { beats: BEATS_PER_BAR });
    proof {
        assert(actions@ =~= fill_and_loop_actions(fill, previous_loop_handle));
    }
    actions
}

} // verus!
