//! The beat display: which of the four beat circles light up.

use crate::beat::{beat_number, Beat, DrumFill};
use vstd::prelude::*;

verus! {

/// How one of the four beat circles is drawn: highlighted as the current
/// beat, marked as occupied by the requested fill, or dim.
#[derive(Debug, Clone, Copy, PartialEq, Eq, Structural)]
pub enum CircleColor {
    CurrentBeat,
    Fill,
    Inactive,
}

/// Whether a fill, once sounding, occupies the beat with number
/// `beat_index`: a fill of length `n` covers the last `n` beats of the bar.
pub open spec fn fill_occupies_beat(beat_index: int, fill: DrumFill) -> bool {
    match fill {
        DrumFill::TwoBeat => beat_index > 2,
        DrumFill::ThreeBeat => beat_index > 1,
        DrumFill::FourBeat => true,
    }
}

/// The widget model for the beat display: the current beat, when playback
/// is active, and the fill being queued or played, if any.
pub struct BeatDisplay {
    pub beat: Option<Beat>,
    pub fill: Option<DrumFill>,
}

/// The color class of the circle with number `beat_index`: the current
/// beat's circle is highlighted; otherwise a circle whose beat the fill
/// occupies is marked; the rest stay dim.
pub open spec fn circle_color_of(display: BeatDisplay, beat_index: int) -> CircleColor {
    if display.beat matches Some(b) && beat_number(b) == beat_index {
        CircleColor::CurrentBeat
    } else if display.fill matches Some(f) && fill_occupies_beat(beat_index, f) {
        CircleColor::Fill
    } else {
        CircleColor::Inactive
    }
}

impl BeatDisplay {
    /// Whether `fill`, once sounding, occupies the beat with number
    /// `beat_index`.
    pub fn does_drum_fill_occupy_beat(beat_index: usize, fill: DrumFill) -> (r: bool)
        ensures
            r == fill_occupies_beat(beat_index as int, fill),
    {
        match fill {
            DrumFill::TwoBeat => beat_index > 2,
            DrumFill::ThreeBeat => beat_index > 1,
            DrumFill::FourBeat => true,
        }
    }

    /// The color class of the circle with number `beat_index`.
    pub fn circle_color(&self, beat_index: usize) -> (c: CircleColor)
        ensures
            c == circle_color_of(*self, beat_index as int),
    {
        if let Some(beat) = self.beat {
            if beat.as_usize() == beat_index {
                return CircleColor::CurrentBeat;
            }
        }
        if let Some(fill) = self.fill {
            if Self::does_drum_fill_occupy_beat(beat_index, fill) {
                return CircleColor::Fill;
            }
        }
        CircleColor::Inactive
    }
}

} // verus!
