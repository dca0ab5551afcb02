//! The playback state machine and sequence coordinator.
//!
//! Commands from the presentation layer and markers from the engine both
//! land here. Command handling is split in two so that a rejected engine
//! request never leaves a partial transition: `command_calls` says which
//! engine requests a command needs from the current state, and `update`
//! performs the transition once those requests have been accepted. Marker
//! delivery (`check_for_events`) never calls the engine at all.

use crate::beat::{fill_for_beat, Beat, DrumFill, DrumFillEvent};
use crate::sequence::{
    beat_tracker_actions, beat_tracker_sequence, fill_and_loop_actions, fill_and_loop_sequence,
    loop_actions, loop_sequence, AudioEvent, EngineCall, SHORT_FADE_MS, TEMPO_BPM,
};
use vstd::prelude::*;

verus! {

/// Commands from the presentation layer.
#[derive(Debug, Clone, Copy, PartialEq, Eq, Structural)]
pub enum Message {
    GoToDemoSelect,
    Play,
    PlayDrumFill,
    Stop,
}

/// The authoritative record of what the scheduler is doing. Each active
/// state tracks exactly two sequence handles: the beat tracker's and the
/// loop-or-fill sequence's. A fill that has been requested sits in
/// `QueueingFill` until its start marker fires, then in `PlayingFill` until
/// its finish marker fires.
#[derive(Debug, Clone, Copy, PartialEq, Eq, Structural)]
pub enum PlaybackState {
    Stopped,
    PlayingLoop {
        beat_tracker_sequence: u64,
        loop_sequence: u64,
        current_beat: Beat,
    },
    QueueingFill {
        beat_tracker_sequence: u64,
        loop_sequence: u64,
        current_beat: Beat,
        drum_fill: DrumFill,
    },
    PlayingFill {
        beat_tracker_sequence: u64,
        loop_sequence: u64,
        current_beat: Beat,
        drum_fill: DrumFill,
    },
}

/// The beat-tracker handle tracked in state `s`, if any.
pub open spec fn beat_tracker_handle(s: PlaybackState) -> Option<u64> {
    match s {
        PlaybackState::Stopped => None,
        PlaybackState::PlayingLoop { beat_tracker_sequence, .. } => Some(beat_tracker_sequence),
        PlaybackState::QueueingFill { beat_tracker_sequence, .. } => Some(beat_tracker_sequence),
        PlaybackState::PlayingFill { beat_tracker_sequence, .. } => Some(beat_tracker_sequence),
    }
}

/// The loop-or-fill handle tracked in state `s`, if any.
pub open spec fn loop_handle(s: PlaybackState) -> Option<u64> {
    match s {
        PlaybackState::Stopped => None,
        PlaybackState::PlayingLoop { loop_sequence, .. } => Some(loop_sequence),
        PlaybackState::QueueingFill { loop_sequence, .. } => Some(loop_sequence),
        PlaybackState::PlayingFill { loop_sequence, .. } => Some(loop_sequence),
    }
}

/// The current beat, when one is being tracked.
pub open spec fn current_beat_of(s: PlaybackState) -> Option<Beat> {
    match s {
        PlaybackState::Stopped => None,
        PlaybackState::PlayingLoop { current_beat, .. } => Some(current_beat),
        PlaybackState::QueueingFill { current_beat, .. } => Some(current_beat),
        PlaybackState::PlayingFill { current_beat, .. } => Some(current_beat),
    }
}

/// The fill being queued or played, when there is one.
pub open spec fn drum_fill_of(s: PlaybackState) -> Option<DrumFill> {
    match s {
        PlaybackState::QueueingFill { drum_fill, .. } => Some(drum_fill),
        PlaybackState::PlayingFill { drum_fill, .. } => Some(drum_fill),
        _ => None,
    }
}

/// The display text for state `s`.
pub open spec fn status_text_of(s: PlaybackState) -> Seq<char> {
    match s {
        PlaybackState::Stopped => "Stopped"@,
        PlaybackState::PlayingLoop { current_beat, .. } => match current_beat {
            Beat::One => "Beat 1"@,
            Beat::Two => "Beat 2"@,
            Beat::Three => "Beat 3"@,
            Beat::Four => "Beat 4"@,
        },
        PlaybackState::QueueingFill { drum_fill, .. } => match drum_fill {
            DrumFill::TwoBeat => "Queueing 2 beat drum fill"@,
            DrumFill::ThreeBeat => "Queueing 3 beat drum fill"@,
            DrumFill::FourBeat => "Queueing 4 beat drum fill"@,
        },
        PlaybackState::PlayingFill { drum_fill, .. } => match drum_fill {
            DrumFill::TwoBeat => "Playing 2 beat drum fill"@,
            DrumFill::ThreeBeat => "Playing 3 beat drum fill"@,
            DrumFill::FourBeat => "Playing 4 beat drum fill"@,
        },
    }
}

impl PlaybackState {
    /// The text the presentation layer shows for this state.
    pub fn to_string(&self) -> (text: String)
        ensures
            text@ == status_text_of(*self),
    {
        match *self {
            PlaybackState::Stopped => String::from_str("Stopped"),
            PlaybackState::PlayingLoop { current_beat, .. } => match current_beat {
                Beat::One => String::from_str("Beat 1"),
                Beat::Two => String::from_str("Beat 2"),
                Beat::Three => String::from_str("Beat 3"),
                Beat::Four => String::from_str("Beat 4"),
            },
            PlaybackState::QueueingFill { drum_fill, .. } => match drum_fill {
                DrumFill::TwoBeat => String::from_str("Queueing 2 beat drum fill"),
                DrumFill::ThreeBeat => String::from_str("Queueing 3 beat drum fill"),
                DrumFill::FourBeat => String::from_str("Queueing 4 beat drum fill"),
            },
            PlaybackState::PlayingFill { drum_fill, .. } => match drum_fill {
                DrumFill::TwoBeat => String::from_str("Playing 2 beat drum fill"),
                DrumFill::ThreeBeat => String::from_str("Playing 3 beat drum fill"),
                DrumFill::FourBeat => String::from_str("Playing 4 beat drum fill"),
            },
        }
    }

    /// The current beat, when one is being tracked: the snapshot the
    /// presentation layer renders.
    pub fn current_beat(&self) -> (b: Option<Beat>)
        ensures
            b == current_beat_of(*self),
    {
        match *self {
            PlaybackState::Stopped => None,
            PlaybackState::PlayingLoop { current_beat, .. } => Some(current_beat),
            PlaybackState::QueueingFill { current_beat, .. } => Some(current_beat),
            PlaybackState::PlayingFill { current_beat, .. } => Some(current_beat),
        }
    }

    /// The fill being queued or played, when there is one.
    pub fn current_fill(&self) -> (f: Option<DrumFill>)
        ensures
            f == drum_fill_of(*self),
    {
        match *self {
            PlaybackState::QueueingFill { drum_fill, .. } => Some(drum_fill),
            PlaybackState::PlayingFill { drum_fill, .. } => Some(drum_fill),
            _ => None,
        }
    }
}

/// Well-formedness of the tracked handles: every tracked handle was issued
/// before `next` (the next fresh handle), and the two tracked handles are
/// distinct.
pub open spec fn handles_wf(s: PlaybackState, next: u64) -> bool {
    match s {
        PlaybackState::Stopped => true,
        _ => {
            &&& beat_tracker_handle(s).unwrap() < next
            &&& loop_handle(s).unwrap() < next
            &&& beat_tracker_handle(s).unwrap() != loop_handle(s).unwrap()
        },
    }
}

/// How many fresh sequence handles a command consumes in a given state.
pub open spec fn handles_allocated(s: PlaybackState, m: Message) -> int {
    match m {
        Message::Play => if s is Stopped {
            2
        } else {
            0
        },
        Message::PlayDrumFill => if s is PlayingLoop {
            1
        } else {
            0
        },
        _ => 0,
    }
}

/// The transition table for commands. `h` is the next fresh handle; a
/// command that schedules new sequences tracks them under `h` (and, for a
/// play command, `h + 1`). A command that is not valid for the current state
/// is a no-op.
pub open spec fn command_transition(s: PlaybackState, m: Message, h: u64) -> PlaybackState {
    match m {
        Message::Play => if s is Stopped {
            PlaybackState::PlayingLoop {
                beat_tracker_sequence: h,
                loop_sequence: (h + 1) as u64,
                current_beat: Beat::One,
            }
        } else {
            s
        },
        Message::PlayDrumFill => match s {
            PlaybackState::PlayingLoop { beat_tracker_sequence, loop_sequence: _, current_beat } => {
                PlaybackState::QueueingFill {
                    beat_tracker_sequence,
                    loop_sequence: h,
                    current_beat,
                    drum_fill: fill_for_beat(current_beat),
                }
            },
            _ => s,
        },
        Message::Stop => PlaybackState::Stopped,
        Message::GoToDemoSelect => s,
    }
}

/// The engine requests a command performs in a given state, with `h` the
/// next fresh handle. A play command schedules the beat tracker and the
/// loop and starts the clock; a fill command schedules one fill-and-loop
/// sequence superseding the tracked loop; a stop command stops each tracked
/// handle exactly once, with the short fade, and stops the clock. Commands
/// that are no-ops perform no engine calls.
pub open spec fn command_calls_match(
    s: PlaybackState,
    m: Message,
    h: u64,
    calls: Seq<EngineCall>,
) -> bool {
    match m {
        Message::Play => if s is Stopped {
            &&& calls.len() == 3
            &&& calls[0] matches EngineCall::Schedule { handle, actions } && handle == h
                && actions@ == beat_tracker_actions()
            &&& calls[1] matches EngineCall::Schedule { handle, actions } && handle == h + 1
                && actions@ == loop_actions()
            &&& calls[2] == (EngineCall::StartClock { tempo_bpm: TEMPO_BPM })
        } else {
            calls.len() == 0
        },
        Message::PlayDrumFill => match s {
            PlaybackState::PlayingLoop { beat_tracker_sequence: _, loop_sequence, current_beat } => {
                &&& calls.len() == 1
                &&& calls[0] matches EngineCall::Schedule { handle, actions } && handle == h
                    && actions@ == fill_and_loop_actions(fill_for_beat(current_beat), loop_sequence)
            },
            _ => calls.len() == 0,
        },
        Message::Stop => if s is Stopped {
            calls.len() == 0
        } else {
            &&& calls.len() == 3
            &&& calls[0] == (EngineCall::Stop {
                handle: beat_tracker_handle(s).unwrap(),
                fade_ms: SHORT_FADE_MS,
            })
            &&& calls[1] == (EngineCall::Stop {
                handle: loop_handle(s).unwrap(),
                fade_ms: SHORT_FADE_MS,
            })
            &&& calls[2] == EngineCall::StopClock
        },
        Message::GoToDemoSelect => calls.len() == 0,
    }
}

/// The transition table for markers. A beat marker from the tracked beat
/// tracker updates the current beat in every active state; a start marker
/// from the tracked fill sequence moves a queued fill into playback; a
/// finish marker from it returns to plain looping. Markers under any other
/// handle are stale and ignored, as is everything while stopped.
pub open spec fn event_transition(s: PlaybackState, handle: u64, event: AudioEvent) -> PlaybackState {
    match s {
        PlaybackState::Stopped => s,
        PlaybackState::PlayingLoop { beat_tracker_sequence, loop_sequence, current_beat } => {
            match event {
                AudioEvent::Beat(b) => if handle == beat_tracker_sequence {
                    PlaybackState::PlayingLoop {
                        beat_tracker_sequence,
                        loop_sequence,
                        current_beat: b,
                    }
                } else {
                    s
                },
                AudioEvent::Fill(_) => s,
            }
        },
        PlaybackState::QueueingFill {
            beat_tracker_sequence,
            loop_sequence,
            current_beat,
            drum_fill,
        } => {
            match event {
                AudioEvent::Beat(b) => if handle == beat_tracker_sequence {
                    PlaybackState::QueueingFill {
                        beat_tracker_sequence,
                        loop_sequence,
                        current_beat: b,
                        drum_fill,
                    }
                } else {
                    s
                },
                AudioEvent::Fill(DrumFillEvent::Start) => if handle == loop_sequence {
                    PlaybackState::PlayingFill {
                        beat_tracker_sequence,
                        loop_sequence,
                        current_beat,
                        drum_fill,
                    }
                } else {
                    s
                },
                AudioEvent::Fill(DrumFillEvent::Finish) => s,
            }
        },
        PlaybackState::PlayingFill {
            beat_tracker_sequence,
            loop_sequence,
            current_beat,
            drum_fill,
        } => {
            match event {
                AudioEvent::Beat(b) => if handle == beat_tracker_sequence {
                    PlaybackState::PlayingFill {
                        beat_tracker_sequence,
                        loop_sequence,
                        current_beat: b,
                        drum_fill,
                    }
                } else {
                    s
                },
                AudioEvent::Fill(DrumFillEvent::Finish) => if handle == loop_sequence {
                    PlaybackState::PlayingLoop {
                        beat_tracker_sequence,
                        loop_sequence,
                        current_beat,
                    }
                } else {
                    s
                },
                AudioEvent::Fill(DrumFillEvent::Start) => s,
            }
        },
    }
}

/// Deliver a batch of markers, oldest first.
pub open spec fn run_events(s: PlaybackState, notes: Seq<(u64, AudioEvent)>) -> PlaybackState
    decreases notes.len(),
{
    if notes.len() == 0 {
        s
    } else {
        run_events(event_transition(s, notes[0].0, notes[0].1), notes.drop_first())
    }
}

/// The drum fill demo's scheduler: the playback state machine together with
/// the counter from which fresh sequence handles are drawn.
pub struct DrumFillDemo {
    playback_state: PlaybackState,
    next_handle_id: u64,
}

impl DrumFillDemo {
    /// The current playback state.
    pub closed spec fn state(self) -> PlaybackState {
        self.playback_state
    }

    /// The next fresh sequence handle.
    pub closed spec fn next_handle(self) -> u64 {
        self.next_handle_id
    }

    /// Every tracked handle was issued earlier and the two tracked handles
    /// are distinct; established by the constructor and preserved by every
    /// method.
    pub open spec fn inv(self) -> bool {
        handles_wf(self.state(), self.next_handle())
    }

    /// Fresh handles remain: the handle counter is nowhere near exhausted.
    pub open spec fn handles_available(self) -> bool {
        self.next_handle() + 2 <= u64::MAX
    }

    /// A new scheduler: stopped, with no sequences tracked.
    pub fn new() -> (demo: Self)
        ensures
            demo.state() == PlaybackState::Stopped,
            demo.next_handle() == 0,
            demo.inv(),
    {
        DrumFillDemo { playback_state: PlaybackState::Stopped, next_handle_id: 0 }
    }

    /// Whether fresh sequence handles remain; true for any realistic run,
    /// and a caller's way to test `handles_available` before issuing a
    /// command.
    pub fn has_handles_available(&self) -> (r: bool)
        ensures
            r == self.handles_available(),
    {
        self.next_handle_id <= u64::MAX - 2
    }

    /// Read-only snapshot of the playback state, for rendering.
    pub fn playback_state(&self) -> (s: PlaybackState)
        ensures
            s == self.state(),
    {
        self.playback_state
    }

    /// The engine requests that `message` needs from the current state.
    /// Perform them, then commit the transition with `update`; if the
    /// engine rejects one, do not commit, and the machine stays in its
    /// pre-transition state.
    pub fn command_calls(&self, message: Message) -> (calls: Vec<EngineCall>)
        requires
            self.handles_available(),
        ensures
            command_calls_match(self.state(), message, self.next_handle(), calls@),
    {
        let mut calls: Vec<EngineCall> = Vec::new();
        match message {
            Message::Play => {
                if let PlaybackState::Stopped = self.playback_state {
                    calls.push(
                        EngineCall::Schedule {
                            handle: self.next_handle_id,
                            actions: beat_tracker_sequence(),
                        },
                    );
                    calls.push(
                        EngineCall::Schedule {
                            handle: self.next_handle_id + 1,
                            actions: loop_sequence(),
                        },
                    );
                    calls.push(EngineCall::StartClock { tempo_bpm: TEMPO_BPM });
                }
            },
            Message::PlayDrumFill => {
                if let PlaybackState::PlayingLoop {
                    beat_tracker_sequence: _,
                    loop_sequence: previous,
                    current_beat,
                } = self.playback_state {
                    let fill = current_beat.drum_fill();
                    calls.push(
                        EngineCall::Schedule {
                            handle: self.next_handle_id,
                            actions: fill_and_loop_sequence(fill, previous),
                        },
                    );
                }
            },
            Message::Stop => {
                match self.playback_state {
                    PlaybackState::Stopped => {},
                    PlaybackState::PlayingLoop {
                        beat_tracker_sequence,
                        loop_sequence,
                        current_beat: _,
                    } => {
                        calls.push(
                            EngineCall::Stop {
                                handle: beat_tracker_sequence,
                                fade_ms: SHORT_FADE_MS,
                            },
                        );
                        calls.push(
                            EngineCall::Stop { handle: loop_sequence, fade_ms: SHORT_FADE_MS },
                        );
                        calls.push(EngineCall::StopClock);
                    },
                    PlaybackState::QueueingFill {
                        beat_tracker_sequence,
                        loop_sequence,
                        current_beat: _,
                        drum_fill: _,
                    } => {
                        calls.push(
                            EngineCall::Stop {
                                handle: beat_tracker_sequence,
                                fade_ms: SHORT_FADE_MS,
                            },
                        );
                        calls.push(
                            EngineCall::Stop { handle: loop_sequence, fade_ms: SHORT_FADE_MS },
                        );
                        calls.push(EngineCall::StopClock);
                    },
                    PlaybackState::PlayingFill {
                        beat_tracker_sequence,
                        loop_sequence,
                        current_beat: _,
                        drum_fill: _,
                    } => {
                        calls.push(
                            EngineCall::Stop {
                                handle: beat_tracker_sequence,
                                fade_ms: SHORT_FADE_MS,
                            },
                        );
                        calls.push(
                            EngineCall::Stop { handle: loop_sequence, fade_ms: SHORT_FADE_MS },
                        );
                        calls.push(EngineCall::StopClock);
                    },
                }
            },
            Message::GoToDemoSelect => {},
        }
        calls
    }

    /// Commit the transition for `message`: the transition table for
    /// commands, allocating the handles named by `command_calls`.
    pub fn update(&mut self, message: Message)
        requires
            old(self).inv(),
            old(self).handles_available(),
        ensures
            final(self).inv(),
            final(self).state() == command_transition(
                old(self).state(),
                message,
                old(self).next_handle(),
            ),
            final(self).next_handle() == old(self).next_handle() + handles_allocated(
                old(self).state(),
                message,
            ),
    {
        match message {
            Message::Play => {
                if let PlaybackState::Stopped = self.playback_state {
                    self.playback_state = PlaybackState::PlayingLoop {
                        beat_tracker_sequence: self.next_handle_id,
                        loop_sequence: self.next_handle_id + 1,
                        current_beat: Beat::One,
                    };
                    self.next_handle_id = self.next_handle_id + 2;
                }
            },
            Message::PlayDrumFill => {
                if let PlaybackState::PlayingLoop {
                    beat_tracker_sequence,
                    loop_sequence: _,
                    current_beat,
                } = self.playback_state {
                    let fill = current_beat.drum_fill();
                    self.playback_state = PlaybackState::QueueingFill {
                        beat_tracker_sequence,
                        loop_sequence: self.next_handle_id,
                        current_beat,
                        drum_fill: fill,
                    };
                    self.next_handle_id = self.next_handle_id + 1;
                }
            },
            Message::Stop => {
                self.playback_state = PlaybackState::Stopped;
            },
            Message::GoToDemoSelect => {},
        }
    }

    /// Deliver one marker that arrived under `handle`: the transition table
    /// for markers. Never calls the engine.
    pub fn handle_audio_event(&mut self, handle: u64, event: AudioEvent)
        requires
            old(self).inv(),
        ensures
            final(self).inv(),
            final(self).state() == event_transition(old(self).state(), handle, event),
            final(self).next_handle() == old(self).next_handle(),
    {
        match self.playback_state {
            PlaybackState::Stopped => {},
            PlaybackState::PlayingLoop { beat_tracker_sequence, loop_sequence, current_beat: _ } => {
                match event {
                    AudioEvent::Beat(b) => {
                        if handle == beat_tracker_sequence {
                            self.playback_state = PlaybackState::PlayingLoop {
                                beat_tracker_sequence,
                                loop_sequence,
                                current_beat: b,
                            };
                        }
                    },
                    AudioEvent::Fill(_) => {},
                }
            },
            PlaybackState::QueueingFill {
                beat_tracker_sequence,
                loop_sequence,
                current_beat,
                drum_fill,
            } => {
                match event {
                    AudioEvent::Beat(b) => {
                        if handle == beat_tracker_sequence {
                            self.playback_state = PlaybackState::QueueingFill {
                                beat_tracker_sequence,
                                loop_sequence,
                                current_beat: b,
                                drum_fill,
                            };
                        }
                    },
                    AudioEvent::Fill(DrumFillEvent::Start) => {
                        if handle == loop_sequence {
                            self.playback_state = PlaybackState::PlayingFill {
                                beat_tracker_sequence,
                                loop_sequence,
                                current_beat,
                                drum_fill,
                            };
                        }
                    },
                    AudioEvent::Fill(DrumFillEvent::Finish) => {},
                }
            },
            PlaybackState::PlayingFill {
                beat_tracker_sequence,
                loop_sequence,
                current_beat,
                drum_fill,
            } => {
                match event {
                    AudioEvent::Beat(b) => {
                        if handle == beat_tracker_sequence {
                            self.playback_state = PlaybackState::PlayingFill {
                                beat_tracker_sequence,
                                loop_sequence,
                                current_beat: b,
                                drum_fill,
                            };
                        }
                    },
                    AudioEvent::Fill(DrumFillEvent::Finish) => {
                        if handle == loop_sequence {
                            self.playback_state = PlaybackState::PlayingLoop {
                                beat_tracker_sequence,
                                loop_sequence,
                                current_beat,
                            };
                        }
                    },
                    AudioEvent::Fill(DrumFillEvent::Start) => {},
                }
            },
        }
    }

    /// One poll step: deliver a batch of drained markers, oldest first.
    /// Each entry pairs the handle the marker arrived under with the marker
    /// itself. Never calls the engine.
    pub fn check_for_events(&mut self, notifications: &Vec<(u64, AudioEvent)>)
        requires
            old(self).inv(),
        ensures
            final(self).inv(),
            final(self).state() == run_events(old(self).state(), notifications@),
            final(self).next_handle() == old(self).next_handle(),
    {
        let ghost initial = self.state();
        proof {
            assert(notifications@.skip(0) =~= notifications@);
        }
        let n: usize = notifications.len();
        let mut i: usize = 0;
        while i < n
            invariant
                i <= n,
                n == notifications@.len(),
                self.inv(),
                self.next_handle() == old(self).next_handle(),
                run_events(initial, notifications@) == run_events(
                    self.state(),
                    notifications@.skip(i as int),
                ),
            decreases n - i,
        {
            let (handle, event) = notifications[i];
            proof {
                let rest = notifications@.skip(i as int);
                assert(rest[0] == notifications@[i as int]);
                assert(rest.drop_first() =~= notifications@.skip(i as int + 1));
            }
            self.handle_audio_event(handle, event);
            i = i + 1;
        }
        proof {
            assert(notifications@.skip(n as int) =~= Seq::<(u64, AudioEvent)>::empty());
        }
    }
}

/// Stop is idempotent: issued while already stopped, it performs no engine
/// calls and leaves the state stopped.
pub proof fn lemma_stop_idempotent(h: u64, calls: Seq<EngineCall>)
    requires
        command_calls_match(PlaybackState::Stopped, Message::Stop, h, calls),
    ensures
        command_transition(PlaybackState::Stopped, Message::Stop, h) == PlaybackState::Stopped,
        calls =~= Seq::<EngineCall>::empty(),
{
}

/// The set of beat-tracker handles tracked in state `s`.
pub open spec fn tracked_beat_tracker_handles(s: PlaybackState) -> Set<u64> {
    match beat_tracker_handle(s) {
        Some(h) => set![h],
        None => Set::empty(),
    }
}

/// The set of loop-or-fill handles tracked in state `s`.
pub open spec fn tracked_loop_handles(s: PlaybackState) -> Set<u64> {
    match loop_handle(s) {
        Some(h) => set![h],
        None => Set::empty(),
    }
}

/// In every state, at most one beat-tracker handle and at most one
/// loop-or-fill handle are tracked, and the stopped state tracks none.
pub proof fn lemma_at_most_one_handle_of_each_kind(s: PlaybackState)
    ensures
        tracked_beat_tracker_handles(s).finite(),
        tracked_beat_tracker_handles(s).len() <= 1,
        tracked_loop_handles(s).finite(),
        tracked_loop_handles(s).len() <= 1,
        s is Stopped ==> tracked_beat_tracker_handles(s) =~= Set::<u64>::empty()
            && tracked_loop_handles(s) =~= Set::<u64>::empty(),
{
    if let Some(h) = beat_tracker_handle(s) {
        assert(tracked_beat_tracker_handles(s) =~= Set::empty().insert(h));
    }
    if let Some(h) = loop_handle(s) {
        assert(tracked_loop_handles(s) =~= Set::empty().insert(h));
    }
}

/// Supersession is atomic: a fill command from plain looping keeps the beat
/// tracker, replaces the tracked loop handle with the fresh handle its
/// schedule request names, keeps the current beat, and records the fill
/// selected for that beat. The fresh handle differs from both handles
/// tracked before, so no superseded handle is still tracked afterwards.
pub proof fn lemma_fill_supersession(s: PlaybackState, h: u64)
    requires
        s is PlayingLoop,
        handles_wf(s, h),
    ensures
        beat_tracker_handle(command_transition(s, Message::PlayDrumFill, h))
            == beat_tracker_handle(s),
        loop_handle(command_transition(s, Message::PlayDrumFill, h)) == Some(h),
        beat_tracker_handle(s).unwrap() != h,
        loop_handle(s).unwrap() != h,
        current_beat_of(command_transition(s, Message::PlayDrumFill, h)) == current_beat_of(s),
        drum_fill_of(command_transition(s, Message::PlayDrumFill, h)) == Some(
            fill_for_beat(current_beat_of(s).unwrap()),
        ),
{
}

/// From any active state, a stop command stops each tracked handle exactly
/// once, with the short fade, stops the shared clock, and lands in the
/// stopped state.
pub proof fn lemma_stop_from_active(s: PlaybackState, h: u64, calls: Seq<EngineCall>)
    requires
        !(s is Stopped),
        command_calls_match(s, Message::Stop, h, calls),
    ensures
        command_transition(s, Message::Stop, h) == PlaybackState::Stopped,
        calls.len() == 3,
        calls[0] == (EngineCall::Stop {
            handle: beat_tracker_handle(s).unwrap(),
            fade_ms: SHORT_FADE_MS,
        }),
        calls[1] == (EngineCall::Stop {
            handle: loop_handle(s).unwrap(),
            fade_ms: SHORT_FADE_MS,
        }),
        calls[2] == EngineCall::StopClock,
{
}

} // verus!
