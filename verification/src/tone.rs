//! The twelve tone classes of the chromatic scale.

use vstd::prelude::*;
use vstd::std_specs::convert::FromSpecImpl;

verus! {

/// Number of tone classes in one octave of the chromatic scale.
pub const TONES_PER_OCTAVE: u8 = 12;

/// A tone class of the chromatic scale, from C upwards in semitone steps.
#[derive(Debug, Copy, Clone, PartialEq, Eq, Structural)]
pub enum ChromaticTone {
    C,
    CSharp,
    D,
    DSharp,
    E,
    F,
    FSharp,
    G,
    GSharp,
    A,
    ASharp,
    B,
}

impl ChromaticTone {
    /// Position of the tone within its octave: 0 for C up to 11 for B.
    pub open spec fn index_spec(self) -> int {
        match self {
            ChromaticTone::C => 0,
            ChromaticTone::CSharp => 1,
            ChromaticTone::D => 2,
            ChromaticTone::DSharp => 3,
            ChromaticTone::E => 4,
            ChromaticTone::F => 5,
            ChromaticTone::FSharp => 6,
            ChromaticTone::G => 7,
            ChromaticTone::GSharp => 8,
            ChromaticTone::A => 9,
            ChromaticTone::ASharp => 10,
            ChromaticTone::B => 11,
        }
    }

    /// The tone at a position within the octave; positions past 11 name no tone
    /// and are sent to B.
    pub open spec fn at(index: int) -> ChromaticTone {
        if index == 0 {
            ChromaticTone::C
        } else if index == 1 {
            ChromaticTone::CSharp
        } else if index == 2 {
            ChromaticTone::D
        } else if index == 3 {
            ChromaticTone::DSharp
        } else if index == 4 {
            ChromaticTone::E
        } else if index == 5 {
            ChromaticTone::F
        } else if index == 6 {
            ChromaticTone::FSharp
        } else if index == 7 {
            ChromaticTone::G
        } else if index == 8 {
            ChromaticTone::GSharp
        } else if index == 9 {
            ChromaticTone::A
        } else if index == 10 {
            ChromaticTone::ASharp
        } else {
            ChromaticTone::B
        }
    }

    /// Position of the tone within its octave.
    pub fn index(self) -> (i: u8)
        ensures
            i == self.index_spec(),
            i < TONES_PER_OCTAVE,
    {
        match self {
            ChromaticTone::C => 0,
            ChromaticTone::CSharp => 1,
            ChromaticTone::D => 2,
            ChromaticTone::DSharp => 3,
            ChromaticTone::E => 4,
            ChromaticTone::F => 5,
            ChromaticTone::FSharp => 6,
            ChromaticTone::G => 7,
            ChromaticTone::GSharp => 8,
            ChromaticTone::A => 9,
            ChromaticTone::ASharp => 10,
            ChromaticTone::B => 11,
        }
    }

    /// The tone at position `index` of the octave.
    pub fn from_index(index: u8) -> (tone: ChromaticTone)
        requires
            index < TONES_PER_OCTAVE,
        ensures
            tone == ChromaticTone::at(index as int),
            tone.index_spec() == index,
    {
        match index {
            0 => ChromaticTone::C,
            1 => ChromaticTone::CSharp,
            2 => ChromaticTone::D,
            3 => ChromaticTone::DSharp,
            4 => ChromaticTone::E,
            5 => ChromaticTone::F,
            6 => ChromaticTone::FSharp,
            7 => ChromaticTone::G,
            8 => ChromaticTone::GSharp,
            9 => ChromaticTone::A,
            10 => ChromaticTone::ASharp,
            _ => ChromaticTone::B,
        }
    }
}

impl From<ChromaticTone> for u8 {
    fn from(tone: ChromaticTone) -> (index: Self) {
        tone.index()
    }
}

impl FromSpecImpl<ChromaticTone> for u8 {
    open spec fn obeys_from_spec() -> bool {
        true
    }

    open spec fn from_spec(tone: ChromaticTone) -> Self {
        tone.index_spec() as u8
    }
}

} // verus!
