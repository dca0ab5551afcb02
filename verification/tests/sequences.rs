//! Tests for the fill selector, the sequence builders, and the beat display.

use drum_fill_demo::beat::{Beat, DrumFill, DrumFillEvent};
use drum_fill_demo::beat_display::{BeatDisplay, CircleColor};
use drum_fill_demo::sequence::{
    beat_tracker_sequence, fill_and_loop_sequence, loop_sequence, Action, AudioEvent, Sound,
};

#[test]
fn fill_selection_per_beat() {
    assert_eq!(Beat::One.drum_fill(), DrumFill::ThreeBeat);
    assert_eq!(Beat::Two.drum_fill(), DrumFill::TwoBeat);
    assert_eq!(Beat::Three.drum_fill(), DrumFill::FourBeat);
    assert_eq!(Beat::Four.drum_fill(), DrumFill::FourBeat);
}

#[test]
fn fill_start_intervals() {
    assert_eq!(Beat::One.drum_fill().start_interval(), 1);
    assert_eq!(Beat::Two.drum_fill().start_interval(), 1);
    assert_eq!(Beat::Three.drum_fill().start_interval(), 4);
    assert_eq!(Beat::Four.drum_fill().start_interval(), 4);
}

#[test]
fn fill_lengths() {
    assert_eq!(Beat::One.drum_fill().as_usize(), 3);
    assert_eq!(Beat::Two.drum_fill().as_usize(), 2);
    assert_eq!(Beat::Three.drum_fill().as_usize(), 4);
    assert_eq!(Beat::Four.drum_fill().as_usize(), 4);
}

#[test]
fn beat_numbers() {
    assert_eq!(Beat::One.as_usize(), 1);
    assert_eq!(Beat::Two.as_usize(), 2);
    assert_eq!(Beat::Three.as_usize(), 3);
    assert_eq!(Beat::Four.as_usize(), 4);
}

#[test]
fn beat_tracker_emits_each_beat_once_per_bar() {
    assert_eq!(
        beat_tracker_sequence(),
        vec![
            Action::WaitForInterval { beats: 1 },
            Action::MarkLoopStart,
            Action::Emit { marker: AudioEvent::Beat(Beat::One) },
            Action::WaitForDuration { beats: 1 },
            Action::Emit { marker: AudioEvent::Beat(Beat::Two) },
            Action::WaitForDuration { beats: 1 },
            Action::Emit { marker: AudioEvent::Beat(Beat::Three) },
            Action::WaitForDuration { beats: 1 },
            Action::Emit { marker: AudioEvent::Beat(Beat::Four) },
            Action::WaitForDuration { beats: 1 },
        ]
    );
}

#[test]
fn loop_sequence_plays_one_bar_per_pass() {
    assert_eq!(
        loop_sequence(),
        vec![
            Action::WaitForInterval { beats: 1 },
            Action::MarkLoopStart,
            Action::Play { sound: Sound::DrumLoop },
            Action::WaitForDuration { beats: 4 },
        ]
    );
}

#[test]
fn fill_sequence_supersedes_the_loop_and_restarts_it() {
    assert_eq!(
        fill_and_loop_sequence(DrumFill::TwoBeat, 1),
        vec![
            Action::WaitForInterval { beats: 1 },
            Action::Emit { marker: AudioEvent::Fill(DrumFillEvent::Start) },
            Action::StopInstance { handle: 1, fade_ms: 10 },
            Action::Play { sound: Sound::Fill(DrumFill::TwoBeat) },
            Action::WaitForInterval { beats: 4 },
            Action::Emit { marker: AudioEvent::Fill(DrumFillEvent::Finish) },
            Action::MarkLoopStart,
            Action::Play { sound: Sound::DrumLoop },
            Action::WaitForDuration { beats: 4 },
        ]
    );
}

#[test]
fn four_beat_fill_waits_for_the_next_downbeat() {
    let actions = fill_and_loop_sequence(DrumFill::FourBeat, 5);
    assert_eq!(actions[0], Action::WaitForInterval { beats: 4 });
    assert_eq!(actions[2], Action::StopInstance { handle: 5, fade_ms: 10 });
    assert_eq!(actions[3], Action::Play { sound: Sound::Fill(DrumFill::FourBeat) });
}

#[test]
fn fill_occupancy_covers_the_tail_of_the_bar() {
    for index in 1..=4 {
        assert_eq!(
            BeatDisplay::does_drum_fill_occupy_beat(index, DrumFill::TwoBeat),
            index > 2
        );
        assert_eq!(
            BeatDisplay::does_drum_fill_occupy_beat(index, DrumFill::ThreeBeat),
            index > 1
        );
        assert!(BeatDisplay::does_drum_fill_occupy_beat(index, DrumFill::FourBeat));
    }
}

#[test]
fn circle_colors_highlight_current_beat_over_fill() {
    let display = BeatDisplay { beat: Some(Beat::Two), fill: Some(DrumFill::ThreeBeat) };
    assert_eq!(display.circle_color(1), CircleColor::Inactive);
    assert_eq!(display.circle_color(2), CircleColor::CurrentBeat);
    assert_eq!(display.circle_color(3), CircleColor::Fill);
    assert_eq!(display.circle_color(4), CircleColor::Fill);
}

#[test]
fn circle_colors_with_nothing_tracked_are_inactive() {
    let display = BeatDisplay { beat: None, fill: None };
    for index in 1..=4 {
        assert_eq!(display.circle_color(index), CircleColor::Inactive);
    }
}
