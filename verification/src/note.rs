//! A note: a tone of some scale, placed in an octave.

use vstd::prelude::*;

verus! {

/// Number of an octave. Middle C lies in octave 4.
pub type Octave = u8;

/// A tone of type `T` in a given octave.
#[derive(Debug, Copy, Clone, PartialEq, Eq, Structural)]
pub struct Note<T> where T: Sized {
    pub tone: T,
    pub octave: Octave,
}

impl<T> Note<T> where T: Copy + Sized {
    /// The note with tone `tone` in octave `octave`.
    pub fn new(tone: T, octave: Octave) -> (note: Self)
        ensures
            note.tone == tone,
            note.octave == octave,
    {
        Self { tone, octave }
    }
}

} // verus!
