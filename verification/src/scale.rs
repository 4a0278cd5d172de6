//! Scales: how many tones an octave is divided into.

use vstd::prelude::*;
use crate::tone::{ChromaticTone, TONES_PER_OCTAVE};

verus! {

/// A division of the octave into tones.
pub trait Scale {
    /// The tones of the scale.
    type Tones;

    /// The number of tones in an octave.
    spec fn tones(&self) -> nat;

    fn tones_per_octave(&self) -> (count: usize)
        ensures
            count == self.tones(),
    ;
}

/// The scale of twelve semitones.
#[derive(Debug, Copy, Clone)]
pub struct Chromatic {}

impl Scale for Chromatic {
    type Tones = ChromaticTone;

    open spec fn tones(&self) -> nat {
        TONES_PER_OCTAVE as nat
    }

    fn tones_per_octave(&self) -> (count: usize) {
        12
    }
}

impl Default for Chromatic {
    fn default() -> (scale: Self) {
        Chromatic {  }
    }
}

} // verus!
