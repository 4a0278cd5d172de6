use midi_device::note::Note;
use midi_device::piano_keys::{white_keys, BlackKeys, PianoKey};
use midi_device::port_descriptor::{midi_ports, PortDescriptor, PortType};
use midi_device::tone::ChromaticTone;

fn note(tone: ChromaticTone, octave: u8) -> Note<ChromaticTone> {
    Note::new(tone, octave)
}

#[test]
fn white_and_black_keys() {
    let white = [
        ChromaticTone::C,
        ChromaticTone::D,
        ChromaticTone::E,
        ChromaticTone::F,
        ChromaticTone::G,
        ChromaticTone::A,
        ChromaticTone::B,
    ];
    for index in 0u8..12 {
        let tone = ChromaticTone::from_index(index);
        assert_eq!(note(tone, 3).is_white_key(), white.contains(&tone));
    }
}

#[test]
fn keys_followed_by_a_black_key() {
    for index in 0u8..12 {
        let key = note(ChromaticTone::from_index(index), 3);
        let next = key + 1;
        assert_eq!(key.is_followed_by_black_key(), key.is_white_key() && !next.is_white_key());
    }
    assert!(!note(ChromaticTone::E, 4).is_followed_by_black_key());
    assert!(!note(ChromaticTone::B, 4).is_followed_by_black_key());
    assert!(note(ChromaticTone::C, 4).is_followed_by_black_key());
}

#[test]
fn white_keys_of_one_octave() {
    let keys = white_keys(note(ChromaticTone::C, 4), note(ChromaticTone::B, 4));
    assert_eq!(
        keys,
        vec![
            (0, note(ChromaticTone::C, 4)),
            (1, note(ChromaticTone::D, 4)),
            (2, note(ChromaticTone::E, 4)),
            (3, note(ChromaticTone::F, 4)),
            (4, note(ChromaticTone::G, 4)),
            (5, note(ChromaticTone::A, 4)),
            (6, note(ChromaticTone::B, 4)),
        ]
    );
}

#[test]
fn white_keys_of_a_grand_piano() {
    let keys = white_keys(note(ChromaticTone::A, 0), note(ChromaticTone::C, 8));
    assert_eq!(keys.len(), 52);
    assert_eq!(keys[0], (0, note(ChromaticTone::A, 0)));
    assert_eq!(keys[1], (1, note(ChromaticTone::B, 0)));
    assert_eq!(keys[2], (2, note(ChromaticTone::C, 1)));
    assert_eq!(keys[51], (51, note(ChromaticTone::C, 8)));
}

#[test]
fn white_keys_of_small_ranges() {
    assert_eq!(
        white_keys(note(ChromaticTone::C, 4), note(ChromaticTone::C, 4)),
        vec![(0, note(ChromaticTone::C, 4))]
    );
    assert!(white_keys(note(ChromaticTone::CSharp, 4), note(ChromaticTone::CSharp, 4)).is_empty());
    assert!(white_keys(note(ChromaticTone::D, 4), note(ChromaticTone::C, 4)).is_empty());
    assert!(white_keys(note(ChromaticTone::B, 255), note(ChromaticTone::C, 0)).is_empty());
    assert_eq!(
        white_keys(note(ChromaticTone::ASharp, 255), note(ChromaticTone::B, 255)),
        vec![(0, note(ChromaticTone::B, 255))]
    );
}

fn groups_as_tuples(groups: &[BlackKeys]) -> Vec<(usize, Note<ChromaticTone>, Vec<Note<ChromaticTone>>)> {
    groups
        .iter()
        .map(|group| (group.starting_index, group.starting_white_key, group.black_keys.clone()))
        .collect()
}

#[test]
fn black_key_groups_of_one_octave() {
    let keys = white_keys(note(ChromaticTone::C, 4), note(ChromaticTone::B, 4));
    let groups = BlackKeys::groups_from(&keys);
    assert_eq!(
        groups_as_tuples(&groups),
        vec![
            (
                0,
                note(ChromaticTone::C, 4),
                vec![note(ChromaticTone::CSharp, 4), note(ChromaticTone::DSharp, 4)]
            ),
            (
                3,
                note(ChromaticTone::F, 4),
                vec![
                    note(ChromaticTone::FSharp, 4),
                    note(ChromaticTone::GSharp, 4),
                    note(ChromaticTone::ASharp, 4)
                ]
            ),
        ]
    );
    for group in &groups {
        assert!(!group.is_empty());
    }
}

#[test]
fn black_key_group_at_the_right_end_loses_its_last_key() {
    let keys = white_keys(note(ChromaticTone::C, 4), note(ChromaticTone::D, 4));
    assert_eq!(
        groups_as_tuples(&BlackKeys::groups_from(&keys)),
        vec![(0, note(ChromaticTone::C, 4), vec![note(ChromaticTone::CSharp, 4)])]
    );
    let keys = white_keys(note(ChromaticTone::C, 4), note(ChromaticTone::C, 4));
    assert!(BlackKeys::groups_from(&keys).is_empty());
    let keys = white_keys(note(ChromaticTone::E, 4), note(ChromaticTone::A, 4));
    assert_eq!(
        groups_as_tuples(&BlackKeys::groups_from(&keys)),
        vec![(
            1,
            note(ChromaticTone::F, 4),
            vec![note(ChromaticTone::FSharp, 4), note(ChromaticTone::GSharp, 4)]
        )]
    );
}

#[test]
fn black_key_groups_of_nothing() {
    assert!(BlackKeys::groups_from(&[]).is_empty());
    assert!(BlackKeys::groups_from(&[(0, note(ChromaticTone::E, 4))]).is_empty());
    assert!(BlackKeys::default().is_empty());
    assert_eq!(BlackKeys::default().starting_index, 0);
    assert_eq!(BlackKeys::default().starting_white_key, note(ChromaticTone::C, 4));
}

#[test]
fn black_key_groups_of_a_grand_piano() {
    let keys = white_keys(note(ChromaticTone::A, 0), note(ChromaticTone::C, 8));
    let groups = BlackKeys::groups_from(&keys);
    assert_eq!(groups.len(), 15);
    let black: usize = groups.iter().map(|group| group.black_keys.len()).sum();
    assert_eq!(black, 36);
    assert_eq!(
        groups_as_tuples(&groups[..1]),
        vec![(0, note(ChromaticTone::A, 0), vec![note(ChromaticTone::ASharp, 0)])]
    );
    assert_eq!(groups[14].starting_index, 47);
    assert_eq!(groups[14].black_keys.len(), 3);
    for group in &groups {
        for key in &group.black_keys {
            assert!(!key.is_white_key());
        }
    }
}

#[derive(Debug, Clone, Copy, PartialEq)]
enum Port {
    Input,
    Output,
}

#[test]
fn port_descriptors() {
    let input = PortDescriptor::midi_in(Port::Input, "midi-input");
    assert_eq!(input.identifier(), Port::Input);
    assert_eq!(input.name(), "midi-input");
    assert!(input.is_input());
    assert!(!input.is_output());
    assert!(input.port_type() == PortType::Midi);
    let output = PortDescriptor::midi_out(Port::Output, "transposed");
    assert_eq!(output.identifier(), Port::Output);
    assert_eq!(output.name(), "transposed");
    assert!(!output.is_input());
    assert!(output.is_output());
    assert!(output.port_type() == PortType::Midi);
}

#[test]
fn midi_ports_by_direction() {
    let descriptors = vec![
        PortDescriptor::midi_in(Port::Input, "first"),
        PortDescriptor::midi_out(Port::Output, "second"),
        PortDescriptor::midi_in(Port::Output, "third"),
        PortDescriptor::midi_out(Port::Input, "fourth"),
        PortDescriptor::midi_in(Port::Input, "fifth"),
    ];
    assert_eq!(
        midi_ports(&descriptors, true),
        vec![(Port::Input, "first"), (Port::Output, "third"), (Port::Input, "fifth")]
    );
    assert_eq!(
        midi_ports(&descriptors, false),
        vec![(Port::Output, "second"), (Port::Input, "fourth")]
    );
    let none: Vec<PortDescriptor<Port>> = Vec::new();
    assert!(midi_ports(&none, true).is_empty());
    assert!(midi_ports(&descriptors[1..2], true).is_empty());
}
