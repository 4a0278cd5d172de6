//! Notes by name: `Note::C(4)` is middle C.

use vstd::prelude::*;
use vstd::std_specs::convert::FromSpecImpl;
use vstd::std_specs::ops::AddSpecImpl;
use crate::chromatic::{floor_div_rem, note_of_value, note_value, ChromaticNote};
use crate::note::Note as TonedNote;
use crate::tone::ChromaticTone;

verus! {

pub type Octave = u8;

pub type NoteStep = i32;

pub const NOTES_PER_OCTAVE: u8 = 12;

/// A note of the chromatic scale, named by its tone, with its octave.
#[derive(Debug, Copy, Clone, PartialEq, Eq, Structural)]
pub enum Note {
    C(Octave),
    CSharp(Octave),
    D(Octave),
    DSharp(Octave),
    E(Octave),
    F(Octave),
    FSharp(Octave),
    G(Octave),
    GSharp(Octave),
    A(Octave),
    ASharp(Octave),
    B(Octave),
}

impl Default for Note {
    /// Middle C.
    fn default() -> (note: Self)
        ensures
            note == Note::C(4),
    {
        Note::C(4)
    }
}

impl Note {
    /// The note as a tone and an octave.
    pub open spec fn chromatic(self) -> ChromaticNote {
        match self {
            Note::C(octave) => TonedNote { tone: ChromaticTone::C, octave },
            Note::CSharp(octave) => TonedNote { tone: ChromaticTone::CSharp, octave },
            Note::D(octave) => TonedNote { tone: ChromaticTone::D, octave },
            Note::DSharp(octave) => TonedNote { tone: ChromaticTone::DSharp, octave },
            Note::E(octave) => TonedNote { tone: ChromaticTone::E, octave },
            Note::F(octave) => TonedNote { tone: ChromaticTone::F, octave },
            Note::FSharp(octave) => TonedNote { tone: ChromaticTone::FSharp, octave },
            Note::G(octave) => TonedNote { tone: ChromaticTone::G, octave },
            Note::GSharp(octave) => TonedNote { tone: ChromaticTone::GSharp, octave },
            Note::A(octave) => TonedNote { tone: ChromaticTone::A, octave },
            Note::ASharp(octave) => TonedNote { tone: ChromaticTone::ASharp, octave },
            Note::B(octave) => TonedNote { tone: ChromaticTone::B, octave },
        }
    }

    /// The name of a tone in an octave.
    pub open spec fn named(note: ChromaticNote) -> Note {
        match note.tone {
            ChromaticTone::C => Note::C(note.octave),
            ChromaticTone::CSharp => Note::CSharp(note.octave),
            ChromaticTone::D => Note::D(note.octave),
            ChromaticTone::DSharp => Note::DSharp(note.octave),
            ChromaticTone::E => Note::E(note.octave),
            ChromaticTone::F => Note::F(note.octave),
            ChromaticTone::FSharp => Note::FSharp(note.octave),
            ChromaticTone::G => Note::G(note.octave),
            ChromaticTone::GSharp => Note::GSharp(note.octave),
            ChromaticTone::A => Note::A(note.octave),
            ChromaticTone::ASharp => Note::ASharp(note.octave),
            ChromaticTone::B => Note::B(note.octave),
        }
    }

    /// The number of the note: its octave times twelve plus the position of its
    /// tone, which is 0 for C and 11 for B.
    pub open spec fn value(self) -> int {
        note_value(self.chromatic())
    }

    /// The note with a given number, as for notes of a tone and an octave.
    pub open spec fn of_value(value: int) -> Note {
        Note::named(note_of_value(value))
    }

    /// The note whose tone is at position `note_index` of the octave, in `octave`.
    pub fn new(note_index: u8, octave: Octave) -> (note: Note)
        requires
            note_index < NOTES_PER_OCTAVE,
        ensures
            note == Note::named(TonedNote { tone: ChromaticTone::at(note_index as int), octave }),
            note.chromatic().tone.index_spec() == note_index,
            note.chromatic().octave == octave,
    {
        match note_index {
            0 => Note::C(octave),
            1 => Note::CSharp(octave),
            2 => Note::D(octave),
            3 => Note::DSharp(octave),
            4 => Note::E(octave),
            5 => Note::F(octave),
            6 => Note::FSharp(octave),
            7 => Note::G(octave),
            8 => Note::GSharp(octave),
            9 => Note::A(octave),
            10 => Note::ASharp(octave),
            _ => Note::B(octave),
        }
    }

    /// The position of the note's tone in its octave.
    pub fn note_index(&self) -> (index: u8)
        ensures
            index == self.chromatic().tone.index_spec(),
            index < NOTES_PER_OCTAVE,
    {
        match self {
            Self::C(_) => 0,
            Self::CSharp(_) => 1,
            Self::D(_) => 2,
            Self::DSharp(_) => 3,
            Self::E(_) => 4,
            Self::F(_) => 5,
            Self::FSharp(_) => 6,
            Self::G(_) => 7,
            Self::GSharp(_) => 8,
            Self::A(_) => 9,
            Self::ASharp(_) => 10,
            Self::B(_) => 11,
        }
    }

    /// The octave of the note.
    pub fn octave(&self) -> (octave: u8)
        ensures
            octave == self.chromatic().octave,
    {
        *match self {
            Self::C(octave) => octave,
            Self::CSharp(octave) => octave,
            Self::D(octave) => octave,
            Self::DSharp(octave) => octave,
            Self::E(octave) => octave,
            Self::F(octave) => octave,
            Self::FSharp(octave) => octave,
            Self::G(octave) => octave,
            Self::GSharp(octave) => octave,
            Self::A(octave) => octave,
            Self::ASharp(octave) => octave,
            Self::B(octave) => octave,
        }
    }
}

/// A note is the name of its tone and octave, and its own number's note.
pub proof fn lemma_named(note: Note)
    ensures
        Note::named(note.chromatic()) == note,
        Note::of_value(note.value()) == note,
{
    crate::chromatic::lemma_note_of_value_of_note(note.chromatic());
}

impl From<i32> for Note {
    fn from(value: i32) -> (note: Self) {
        let (octaves, note_index) = floor_div_rem(value, NOTES_PER_OCTAVE as i32);
        let (_, octave) = floor_div_rem(octaves, 256);
        Self::new(note_index as u8, octave as u8)
    }
}

impl FromSpecImpl<i32> for Note {
    open spec fn obeys_from_spec() -> bool {
        true
    }

    open spec fn from_spec(value: i32) -> Self {
        Note::of_value(value as int)
    }
}

impl From<Note> for i32 {
    fn from(value: Note) -> (number: Self) {
        value.octave() as i32 * NOTES_PER_OCTAVE as i32 + value.note_index() as i32
    }
}

impl FromSpecImpl<Note> for i32 {
    open spec fn obeys_from_spec() -> bool {
        true
    }

    open spec fn from_spec(note: Note) -> Self {
        note.value() as i32
    }
}

impl core::ops::Add<NoteStep> for Note {
    type Output = Note;

    fn add(self, rhs: NoteStep) -> (note: Self::Output) {
        let mut value = i32::from(self);
        value += rhs;
        Note::from(value)
    }
}

impl AddSpecImpl<NoteStep> for Note {
    open spec fn obeys_add_spec() -> bool {
        true
    }

    open spec fn add_req(self, rhs: NoteStep) -> bool {
        self.value() + rhs <= i32::MAX
    }

    open spec fn add_spec(self, rhs: NoteStep) -> Self::Output {
        Note::of_value(self.value() + rhs)
    }
}

} // verus!
