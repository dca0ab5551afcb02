//! Beats, drum fills, and the fill selector.

use vstd::prelude::*;

verus! {

/// Position within a fixed four-beat bar.
#[derive(Debug, Clone, Copy, PartialEq, Eq, Structural)]
pub enum Beat {
    One,
    Two,
    Three,
    Four,
}

/// A drum fill, named by how many beats of audio it contains.
#[derive(Debug, Clone, Copy, PartialEq, Eq, Structural)]
pub enum DrumFill {
    TwoBeat,
    ThreeBeat,
    FourBeat,
}

/// Lifecycle markers emitted by a running fill-and-loop sequence.
#[derive(Debug, Clone, Copy, PartialEq, Eq, Structural)]
pub enum DrumFillEvent {
    Start,
    Finish,
}

/// The number of a beat within the bar, 1 through 4.
pub open spec fn beat_number(b: Beat) -> int {
    match b {
        Beat::One => 1,
        Beat::Two => 2,
        Beat::Three => 3,
        Beat::Four => 4,
    }
}

/// The length of a fill in beats.
pub open spec fn fill_length(f: DrumFill) -> int {
    match f {
        DrumFill::TwoBeat => 2,
        DrumFill::ThreeBeat => 3,
        DrumFill::FourBeat => 4,
    }
}

/// The musical interval, in beats, at which a fill must begin: the next beat
/// boundary for the short fills, the next downbeat for the four-beat fill.
pub open spec fn fill_start_interval(f: DrumFill) -> int {
    match f {
        DrumFill::FourBeat => 4,
        _ => 1,
    }
}

/// The fill selector: which fill to use when a fill is requested on beat `b`.
pub open spec fn fill_for_beat(b: Beat) -> DrumFill {
    match b {
        Beat::One => DrumFill::ThreeBeat,
        Beat::Two => DrumFill::TwoBeat,
        _ => DrumFill::FourBeat,
    }
}

impl Beat {
    /// The beat's number within the bar.
    pub fn as_usize(self) -> (n: usize)
        ensures
            n == beat_number(self),
    {
        match self {
            Beat::One => 1,
            Beat::Two => 2,
            Beat::Three => 3,
            Beat::Four => 4,
        }
    }

    /// Select the drum fill to play when a fill is requested on this beat.
    pub fn drum_fill(self) -> (f: DrumFill)
        ensures
            f == fill_for_beat(self),
    {
        match self {
            Beat::One => DrumFill::ThreeBeat,
            Beat::Two => DrumFill::TwoBeat,
            _ => DrumFill::FourBeat,
        }
    }
}

impl DrumFill {
    /// The fill's length in beats.
    pub fn as_usize(self) -> (n: usize)
        ensures
            n == fill_length(self),
    {
        match self {
            DrumFill::TwoBeat => 2,
            DrumFill::ThreeBeat => 3,
            DrumFill::FourBeat => 4,
        }
    }

    /// The musical interval, in beats, at which this fill must begin.
    pub fn start_interval(self) -> (n: u64)
        ensures
            n == fill_start_interval(self),
    {
        match self {
            DrumFill::FourBeat => 4,
            _ => 1,
        }
    }
}

/// Law of the fill selector: the fill chosen on beats one and two starts at
/// the next beat boundary, the fill chosen on beats three and four starts at
/// the next downbeat, and the chosen lengths are three, two, four and four
/// beats respectively. Together with the start interval this makes every
/// fill end exactly on a downbeat.
pub proof fn lemma_fill_selection(b: Beat)
    ensures
        (b == Beat::One || b == Beat::Two) ==> fill_start_interval(fill_for_beat(b)) == 1,
        (b == Beat::Three || b == Beat::Four) ==> fill_start_interval(fill_for_beat(b)) == 4,
        b == Beat::One ==> fill_length(fill_for_beat(b)) == 3,
        b == Beat::Two ==> fill_length(fill_for_beat(b)) == 2,
        (b == Beat::Three || b == Beat::Four) ==> fill_length(fill_for_beat(b)) == 4,
{
}

} // verus!
