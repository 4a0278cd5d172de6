//! Notes of the chromatic scale and their numbering by semitones.

use vstd::prelude::*;
use vstd::std_specs::convert::FromSpecImpl;
use vstd::std_specs::ops::AddSpecImpl;
use crate::note::Note;
use crate::tone::ChromaticTone;

verus! {

/// A distance between two notes, in semitones.
pub type NoteStep = i32;

/// Number of notes in one octave of the chromatic scale.
pub const NOTES_PER_OCTAVE: u8 = 12;

/// A note of the chromatic scale.
pub type ChromaticNote = Note<ChromaticTone>;

/// The number of a chromatic note: its octave times twelve plus the position of
/// its tone. Notes are ordered as their numbers are.
pub open spec fn note_value(note: ChromaticNote) -> int {
    note.octave * 12 + note.tone.index_spec()
}

/// The chromatic note with a given number. The tone is the number modulo twelve,
/// the octave the floor of the number divided by twelve, reduced modulo 256 where
/// it does not fit an octave number.
pub open spec fn note_of_value(value: int) -> ChromaticNote {
    Note { tone: ChromaticTone::at(value % 12), octave: ((value / 12) % 256) as u8 }
}

/// Numbering a note and reading the number back gives the note again.
pub proof fn lemma_note_of_value_of_note(note: ChromaticNote)
    ensures
        note_of_value(note_value(note)) == note,
        0 <= note_value(note) < 256 * 12,
{
    let v = note_value(note);
    let i = note.tone.index_spec();
    assert(0 <= i < 12);
    assert(v % 12 == i && v / 12 == note.octave as int) by (nonlinear_arith)
        requires
            v == note.octave * 12 + i,
            0 <= i < 12,
    ;
    assert(ChromaticTone::at(i) == note.tone);
}

/// Every number from 0 up to the highest note's is the number of the note it names.
pub proof fn lemma_value_of_note_of_value(value: int)
    requires
        0 <= value < 256 * 12,
    ensures
        note_value(note_of_value(value)) == value,
{
    let t = value % 12;
    assert(ChromaticTone::at(t).index_spec() == t);
}

/// Floor quotient and remainder of `value` by a positive `divisor`.
pub(crate) fn floor_div_rem(value: i32, divisor: i32) -> (qr: (i32, i32))
    requires
        0 < divisor,
    ensures
        qr.0 == value as int / divisor as int,
        qr.1 == value as int % divisor as int,
{
    if value >= 0 {
        (value / divisor, value % divisor)
    } else {
        let mirrored: i32 = -(value + 1);
        let q: i32 = mirrored / divisor;
        let r: i32 = mirrored % divisor;
        assert(value as int == divisor * (-q - 1) + (divisor - 1 - r)) by (nonlinear_arith)
            requires
                mirrored == -(value + 1),
                0 < divisor,
                q == mirrored as int / divisor as int,
                r == mirrored as int % divisor as int,
        ;
        assert((value as int) / (divisor as int) == -q - 1 && (value as int) % (divisor as int)
            == divisor - 1 - r) by (nonlinear_arith)
            requires
                value as int == divisor * (-q - 1) + (divisor - 1 - r),
                0 <= divisor - 1 - r < divisor,
        ;
        (-q - 1, divisor - 1 - r)
    }
}

impl Default for Note<ChromaticTone> {
    /// Middle C.
    fn default() -> (note: Self)
        ensures
            note == (Note { tone: ChromaticTone::C, octave: 4 }),
    {
        Note::new(ChromaticTone::C, 4)
    }
}

impl From<i32> for Note<ChromaticTone> {
    fn from(value: i32) -> (note: Self) {
        let (octaves, index) = floor_div_rem(value, NOTES_PER_OCTAVE as i32);
        let (_, octave) = floor_div_rem(octaves, 256);
        Note::new(ChromaticTone::from_index(index as u8), octave as u8)
    }
}

impl FromSpecImpl<i32> for Note<ChromaticTone> {
    open spec fn obeys_from_spec() -> bool {
        true
    }

    open spec fn from_spec(value: i32) -> Self {
        note_of_value(value as int)
    }
}

impl From<Note<ChromaticTone>> for i32 {
    fn from(note: Note<ChromaticTone>) -> (value: Self) {
        note.octave as i32 * NOTES_PER_OCTAVE as i32 + note.tone.index() as i32
    }
}

impl FromSpecImpl<Note<ChromaticTone>> for i32 {
    open spec fn obeys_from_spec() -> bool {
        true
    }

    open spec fn from_spec(note: Note<ChromaticTone>) -> Self {
        note_value(note) as i32
    }
}

impl core::ops::Add<NoteStep> for Note<ChromaticTone> {
    type Output = Note<ChromaticTone>;

    fn add(self, rhs: NoteStep) -> (note: Self::Output) {
        let mut value = i32::from(self);
        value += rhs;
        Note::from(value)
    }
}

impl AddSpecImpl<NoteStep> for Note<ChromaticTone> {
    open spec fn obeys_add_spec() -> bool {
        true
    }

    open spec fn add_req(self, rhs: NoteStep) -> bool {
        note_value(self) + rhs <= i32::MAX
    }

    open spec fn add_spec(self, rhs: NoteStep) -> Self::Output {
        note_of_value(note_value(self) + rhs)
    }
}

} // verus!
