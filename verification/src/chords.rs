//! Chords: the notes that sound together above a base note.

use vstd::prelude::*;
use crate::notes::{Note, NoteStep};

verus! {

/// The kinds of chord.
#[derive(Debug, Copy, Clone, PartialEq, Eq, Structural)]
pub enum ChordScale {
    Major,
    Minor,
    Diminished,
    Augmented,
    Sus2,
    Sus4,
    SevenSus2,
    SevenSus4,
    Sixth,
    Seventh,
    Ninth,
    MajorSeventh,
    MajorNinth,
    MajorEleventh,
    MinorSixth,
    MinorSeventh,
    MinorNinth,
    MinorEleventh,
}

impl ChordScale {
    /// The notes of the chord, in semitones above its base note.
    pub open spec fn steps(self) -> Seq<NoteStep> {
        match self {
            ChordScale::Major => seq![0, 4, 7],
            ChordScale::Minor => seq![0, 3, 7],
            ChordScale::Diminished => seq![0, 3, 6],
            ChordScale::Augmented => seq![0, 4, 8],
            ChordScale::Sus2 => seq![0, 2, 7],
            ChordScale::Sus4 => seq![0, 5, 7],
            ChordScale::SevenSus2 => seq![0, 2, 7, 10],
            ChordScale::SevenSus4 => seq![0, 5, 7, 10],
            ChordScale::Sixth => seq![0, 4, 7, 9],
            ChordScale::Seventh => seq![0, 4, 7, 10],
            ChordScale::Ninth => seq![0, 4, 7, 10, 14],
            ChordScale::MajorSeventh => seq![0, 4, 7, 11],
            ChordScale::MajorNinth => seq![0, 4, 7, 11, 14],
            ChordScale::MajorEleventh => seq![0, 4, 7, 11, 14, 17],
            ChordScale::MinorSixth => seq![0, 3, 7, 9],
            ChordScale::MinorSeventh => seq![0, 3, 7, 10],
            ChordScale::MinorNinth => seq![0, 2, 3, 7, 10],
            ChordScale::MinorEleventh => seq![0, 3, 7, 10, 14, 17],
        }
    }

    /// The notes of the chord above `base_note`.
    pub open spec fn notes_above(self, base_note: Note) -> Seq<Note> {
        Seq::new(self.steps().len(), |i: int| Note::of_value(base_note.value() + self.steps()[i]))
    }

    pub fn note_steps(&self) -> (steps: Vec<NoteStep>)
        ensures
            steps@ == self.steps(),
    {
        let steps = match self {
            Self::Major => vec![0, 4, 7],
            Self::Minor => vec![0, 3, 7],
            Self::Diminished => vec![0, 3, 6],
            Self::Augmented => vec![0, 4, 8],
            Self::Sus2 => vec![0, 2, 7],
            Self::Sus4 => vec![0, 5, 7],
            Self::SevenSus2 => vec![0, 2, 7, 10],
            Self::SevenSus4 => vec![0, 5, 7, 10],
            Self::Sixth => vec![0, 4, 7, 9],
            Self::Seventh => vec![0, 4, 7, 10],
            Self::Ninth => vec![0, 4, 7, 10, 14],
            Self::MajorSeventh => vec![0, 4, 7, 11],
            Self::MajorNinth => vec![0, 4, 7, 11, 14],
            Self::MajorEleventh => vec![0, 4, 7, 11, 14, 17],
            Self::MinorSixth => vec![0, 3, 7, 9],
            Self::MinorSeventh => vec![0, 3, 7, 10],
            Self::MinorNinth => vec![0, 2, 3, 7, 10],
            Self::MinorEleventh => vec![0, 3, 7, 10, 14, 17],
        };
        assert(steps@ =~= self.steps());
        steps
    }

    /// The notes of the chord above `base_note`, the base note first.
    pub fn notes(&self, base_note: Note) -> (notes: Vec<Note>)
        ensures
            notes@ == self.notes_above(base_note),
    {
        let steps = self.note_steps();
        let mut notes: Vec<Note> = Vec::new();
        proof {
            crate::chromatic::lemma_note_of_value_of_note(base_note.chromatic());
        }
        for i in 0..steps.len()
            invariant
                steps@ == self.steps(),
                0 <= base_note.value() < 256 * 12,
                notes@.len() == i,
                forall|k: int|
                    0 <= k < i ==> notes@[k] == Note::of_value(
                        base_note.value() + self.steps()[k],
                    ),
        {
            notes.push(base_note + steps[i]);
        }
        assert(notes@ =~= self.notes_above(base_note));
        notes
    }
}

} // verus!
