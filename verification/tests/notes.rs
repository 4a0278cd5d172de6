use midi_device::chords::ChordScale;
use midi_device::chromatic::ChromaticNote;
use midi_device::note::Note;
use midi_device::notes::Note as NamedNote;
use midi_device::scale::{Chromatic, Scale};
use midi_device::tone::ChromaticTone;

#[test]
fn tone_index_and_back() {
    let tones = [
        ChromaticTone::C,
        ChromaticTone::CSharp,
        ChromaticTone::D,
        ChromaticTone::DSharp,
        ChromaticTone::E,
        ChromaticTone::F,
        ChromaticTone::FSharp,
        ChromaticTone::G,
        ChromaticTone::GSharp,
        ChromaticTone::A,
        ChromaticTone::ASharp,
        ChromaticTone::B,
    ];
    for (index, tone) in tones.iter().enumerate() {
        assert_eq!(tone.index(), index as u8);
        assert_eq!(ChromaticTone::from_index(index as u8), *tone);
        assert_eq!(u8::from(*tone), index as u8);
    }
}

#[test]
fn chromatic_scale_has_twelve_tones() {
    assert_eq!(Chromatic::default().tones_per_octave(), 12);
    assert_eq!(Chromatic {}.tones_per_octave(), 12);
}

#[test]
fn note_new_keeps_tone_and_octave() {
    let note = Note::new(ChromaticTone::FSharp, 7);
    assert_eq!(note.tone, ChromaticTone::FSharp);
    assert_eq!(note.octave, 7);
    let plain = Note::new(5u32, 2);
    assert_eq!(plain.tone, 5);
    assert_eq!(plain.octave, 2);
}

#[test]
fn chromatic_note_default_is_middle_c() {
    assert_eq!(ChromaticNote::default(), Note::new(ChromaticTone::C, 4));
}

#[test]
fn chromatic_note_number() {
    assert_eq!(i32::from(Note::new(ChromaticTone::C, 0)), 0);
    assert_eq!(i32::from(Note::new(ChromaticTone::C, 4)), 48);
    assert_eq!(i32::from(Note::new(ChromaticTone::A, 4)), 57);
    assert_eq!(i32::from(Note::new(ChromaticTone::B, 4)), 59);
    assert_eq!(i32::from(Note::new(ChromaticTone::B, 255)), 3071);
    assert_eq!(i32::from(Note::new(ChromaticTone::C, 22)), 264);
}

#[test]
fn chromatic_note_from_number() {
    assert_eq!(ChromaticNote::from(0), Note::new(ChromaticTone::C, 0));
    assert_eq!(ChromaticNote::from(48), Note::new(ChromaticTone::C, 4));
    assert_eq!(ChromaticNote::from(59), Note::new(ChromaticTone::B, 4));
    assert_eq!(ChromaticNote::from(3071), Note::new(ChromaticTone::B, 255));
}

#[test]
fn chromatic_note_from_number_floors() {
    assert_eq!(ChromaticNote::from(-1), Note::new(ChromaticTone::B, 255));
    assert_eq!(ChromaticNote::from(-12), Note::new(ChromaticTone::C, 255));
    assert_eq!(ChromaticNote::from(-13), Note::new(ChromaticTone::B, 254));
    assert_eq!(ChromaticNote::from(3072), Note::new(ChromaticTone::C, 0));
    assert_eq!(ChromaticNote::from(i32::MAX), Note::new(ChromaticTone::G, 170));
    assert_eq!(ChromaticNote::from(i32::MIN), Note::new(ChromaticTone::E, 85));
}

#[test]
fn chromatic_note_number_round_trip() {
    for value in 0..3072 {
        assert_eq!(i32::from(ChromaticNote::from(value)), value);
    }
}

#[test]
fn chromatic_note_add() {
    assert_eq!(Note::new(ChromaticTone::C, 4) + 1, Note::new(ChromaticTone::CSharp, 4));
    assert_eq!(Note::new(ChromaticTone::B, 4) + 1, Note::new(ChromaticTone::C, 5));
    assert_eq!(Note::new(ChromaticTone::C, 4) + -1, Note::new(ChromaticTone::B, 3));
    assert_eq!(Note::new(ChromaticTone::C, 4) + 12, Note::new(ChromaticTone::C, 5));
    assert_eq!(Note::new(ChromaticTone::C, 4) + 0, Note::new(ChromaticTone::C, 4));
    assert_eq!(Note::new(ChromaticTone::C, 0) + -1, Note::new(ChromaticTone::B, 255));
}

#[test]
fn named_note_new_index_and_octave() {
    assert_eq!(NamedNote::new(0, 4), NamedNote::C(4));
    assert_eq!(NamedNote::new(1, 4), NamedNote::CSharp(4));
    assert_eq!(NamedNote::new(4, 4), NamedNote::E(4));
    assert_eq!(NamedNote::new(11, 2), NamedNote::B(2));
    for index in 0u8..12 {
        let note = NamedNote::new(index, 9);
        assert_eq!(note.note_index(), index);
        assert_eq!(note.octave(), 9);
    }
    assert_eq!(NamedNote::default(), NamedNote::C(4));
}

#[test]
fn named_note_number() {
    assert_eq!(i32::from(NamedNote::C(4)), 48);
    assert_eq!(i32::from(NamedNote::B(4)), 59);
    assert_eq!(i32::from(NamedNote::B(255)), 3071);
    assert_eq!(NamedNote::from(48), NamedNote::C(4));
    assert_eq!(NamedNote::from(59), NamedNote::B(4));
    assert_eq!(NamedNote::from(-1), NamedNote::B(255));
    for value in 0..3072 {
        assert_eq!(i32::from(NamedNote::from(value)), value);
    }
}

#[test]
fn named_note_add() {
    assert_eq!(NamedNote::C(4) + 4, NamedNote::E(4));
    assert_eq!(NamedNote::B(4) + 1, NamedNote::C(5));
    assert_eq!(NamedNote::A(4) + 2, NamedNote::B(4));
    assert_eq!(NamedNote::C(4) + -1, NamedNote::B(3));
}

#[test]
fn major_chord_on_middle_c() {
    let notes = ChordScale::Major.notes(NamedNote::C(4));
    assert_eq!(notes, vec![NamedNote::C(4), NamedNote::E(4), NamedNote::G(4)]);
}

#[test]
fn chords_cross_the_octave() {
    assert_eq!(
        ChordScale::MajorEleventh.notes(NamedNote::A(3)),
        vec![
            NamedNote::A(3),
            NamedNote::CSharp(4),
            NamedNote::E(4),
            NamedNote::GSharp(4),
            NamedNote::B(4),
            NamedNote::D(5)
        ]
    );
    assert_eq!(
        ChordScale::Minor.notes(NamedNote::B(255)),
        vec![NamedNote::B(255), NamedNote::D(0), NamedNote::FSharp(0)]
    );
}

#[test]
fn chord_steps() {
    assert_eq!(ChordScale::Major.note_steps(), vec![0, 4, 7]);
    assert_eq!(ChordScale::Minor.note_steps(), vec![0, 3, 7]);
    assert_eq!(ChordScale::Diminished.note_steps(), vec![0, 3, 6]);
    assert_eq!(ChordScale::Augmented.note_steps(), vec![0, 4, 8]);
    assert_eq!(ChordScale::Sus2.note_steps(), vec![0, 2, 7]);
    assert_eq!(ChordScale::Sus4.note_steps(), vec![0, 5, 7]);
    assert_eq!(ChordScale::SevenSus2.note_steps(), vec![0, 2, 7, 10]);
    assert_eq!(ChordScale::SevenSus4.note_steps(), vec![0, 5, 7, 10]);
    assert_eq!(ChordScale::Sixth.note_steps(), vec![0, 4, 7, 9]);
    assert_eq!(ChordScale::Seventh.note_steps(), vec![0, 4, 7, 10]);
    assert_eq!(ChordScale::Ninth.note_steps(), vec![0, 4, 7, 10, 14]);
    assert_eq!(ChordScale::MajorSeventh.note_steps(), vec![0, 4, 7, 11]);
    assert_eq!(ChordScale::MajorNinth.note_steps(), vec![0, 4, 7, 11, 14]);
    assert_eq!(ChordScale::MajorEleventh.note_steps(), vec![0, 4, 7, 11, 14, 17]);
    assert_eq!(ChordScale::MinorSixth.note_steps(), vec![0, 3, 7, 9]);
    assert_eq!(ChordScale::MinorSeventh.note_steps(), vec![0, 3, 7, 10]);
    assert_eq!(ChordScale::MinorNinth.note_steps(), vec![0, 2, 3, 7, 10]);
    assert_eq!(ChordScale::MinorEleventh.note_steps(), vec![0, 3, 7, 10, 14, 17]);
}
