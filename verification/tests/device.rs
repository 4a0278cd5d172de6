use midi_device::device::DeviceState;
use midi_device::event::Event;
use midi_device::note::Note;
use midi_device::note_state::NoteState;
use midi_device::tone::ChromaticTone;

fn note(tone: ChromaticTone, octave: u8) -> Note<ChromaticTone> {
    Note::new(tone, octave)
}

fn pitch(number: usize) -> Note<ChromaticTone> {
    Note::new(ChromaticTone::from_index((number % 12) as u8), (number / 12) as u8)
}

fn active_total(device: &DeviceState) -> usize {
    let mut total = 0;
    for channel in 1..=device.num_channels() {
        total += device.index(channel as u8).active_notes.len();
    }
    total
}

fn assert_invariant(device: &DeviceState, polyphony: usize) {
    assert_eq!(device.unused_notes_size() + active_total(device), polyphony);
    let mut held = vec![false; polyphony];
    for channel in 1..=device.num_channels() {
        let active = &device.index(channel as u8).active_notes;
        for (place, id) in active.iter().enumerate() {
            assert!(!held[*id]);
            held[*id] = true;
            let state = device.note_by_note_index(*id);
            assert_eq!(state.channel_id, Some(channel as u8));
            for other in &active[..place] {
                assert_ne!(device.note_by_note_index(*other).note, state.note);
            }
        }
    }
    let free = held.iter().filter(|h| !**h).count();
    assert_eq!(free, device.unused_notes_size());
    for id in 0..polyphony {
        if !held[id] {
            assert_eq!(device.note_by_note_index(id).channel_id, None);
        }
    }
}

#[test]
fn new_device_has_all_voices_free() {
    let device = DeviceState::new(1, 16);
    assert_eq!(device.unused_notes_size(), 16);
    assert_eq!(device.num_channels(), 1);
    assert!(device.index(1).active_notes.is_empty());
    for id in 0..16 {
        assert_eq!(*device.note_by_note_index(id), NoteState::default());
    }
    assert_eq!(
        NoteState::default(),
        NoteState { channel_id: None, note: note(ChromaticTone::C, 4), velocity: 0 }
    );
}

#[test]
fn new_device_without_voices_or_channels() {
    let device = DeviceState::new(0, 0);
    assert_eq!(device.unused_notes_size(), 0);
    assert_eq!(device.num_channels(), 0);
    let mut device = DeviceState::new(2, 0);
    device.apply_event(&Event::NoteOn(2, note(ChromaticTone::C, 4), 64));
    assert_eq!(device.unused_notes_size(), 0);
    assert!(device.index(2).active_notes.is_empty());
}

#[test]
fn note_on_then_note_off_scenario() {
    let mut device = DeviceState::new(1, 8);
    assert_eq!(device.unused_notes_size(), 8);
    let note_on = Event::NoteOn(1, note(ChromaticTone::C, 4), 64);
    device.apply_event(&note_on);
    assert_eq!(device.unused_notes_size(), 7);
    let note_off = Event::NoteOff(1, note(ChromaticTone::C, 4), 64);
    device.apply_event(&note_off);
    assert_eq!(device.unused_notes_size(), 8);
}

#[test]
fn note_on_then_note_off_in_octave_one() {
    let mut device = DeviceState::new(1, 8);
    assert_eq!(device.unused_notes_size(), 8);
    let note_on = Event::NoteOn(1, Note::new(ChromaticTone::C, 1), 64);
    device.apply_event(&note_on);
    assert_eq!(device.unused_notes_size(), 7);
    let note_off = Event::NoteOff(1, Note::new(ChromaticTone::C, 1), 64);
    device.apply_event(&note_off);
    assert_eq!(device.unused_notes_size(), 8);
}

#[test]
fn note_on_takes_the_top_of_the_free_stack() {
    let mut device = DeviceState::new(2, 4);
    device.apply_event(&Event::NoteOn(2, note(ChromaticTone::E, 3), 90));
    assert_eq!(device.index(2).active_notes, vec![3]);
    assert!(device.index(1).active_notes.is_empty());
    assert_eq!(
        *device.note_by_note_index(3),
        NoteState { channel_id: Some(2), note: note(ChromaticTone::E, 3), velocity: 90 }
    );
    device.apply_event(&Event::NoteOn(1, note(ChromaticTone::E, 3), 91));
    assert_eq!(device.index(1).active_notes, vec![2]);
    device.apply_event(&Event::NoteOn(2, note(ChromaticTone::F, 3), 92));
    assert_eq!(device.index(2).active_notes, vec![3, 1]);
    assert_eq!(device.unused_notes_size(), 1);
    assert_invariant(&device, 4);
}

#[test]
fn note_on_for_a_sounding_note_changes_nothing() {
    let mut device = DeviceState::new(1, 4);
    let c4 = note(ChromaticTone::C, 4);
    device.apply_event(&Event::NoteOn(1, c4, 64));
    device.apply_event(&Event::NoteOn(1, c4, 100));
    assert_eq!(device.unused_notes_size(), 3);
    assert_eq!(device.index(1).active_notes, vec![3]);
    assert_eq!(device.note_by_note_index(3).velocity, 64);
}

#[test]
fn same_note_on_two_channels_takes_two_voices() {
    let mut device = DeviceState::new(2, 4);
    let c4 = note(ChromaticTone::C, 4);
    device.apply_event(&Event::NoteOn(1, c4, 64));
    device.apply_event(&Event::NoteOn(2, c4, 65));
    assert_eq!(device.unused_notes_size(), 2);
    device.apply_event(&Event::NoteOff(1, c4, 0));
    assert_eq!(device.unused_notes_size(), 3);
    assert!(device.index(1).active_notes.is_empty());
    assert_eq!(device.index(2).active_notes, vec![2]);
    assert_invariant(&device, 4);
}

#[test]
fn note_off_releases_with_its_velocity_and_frees_the_voice() {
    let mut device = DeviceState::new(1, 3);
    let c4 = note(ChromaticTone::C, 4);
    let d4 = note(ChromaticTone::D, 4);
    let e4 = note(ChromaticTone::E, 4);
    device.apply_event(&Event::NoteOn(1, c4, 10));
    device.apply_event(&Event::NoteOn(1, d4, 20));
    device.apply_event(&Event::NoteOn(1, e4, 30));
    assert_eq!(device.index(1).active_notes, vec![2, 1, 0]);
    device.apply_event(&Event::NoteOff(1, d4, 77));
    assert_eq!(device.index(1).active_notes, vec![2, 0]);
    assert_eq!(device.unused_notes_size(), 1);
    assert_eq!(
        *device.note_by_note_index(1),
        NoteState { channel_id: None, note: d4, velocity: 77 }
    );
    device.apply_event(&Event::NoteOn(1, note(ChromaticTone::F, 4), 40));
    assert_eq!(device.index(1).active_notes, vec![2, 0, 1]);
    assert_invariant(&device, 3);
}

#[test]
fn note_off_without_note_on_leaves_the_state() {
    let mut device = DeviceState::new(2, 4);
    let c4 = note(ChromaticTone::C, 4);
    device.apply_event(&Event::NoteOn(1, c4, 64));
    let before_notes: Vec<NoteState> = (0..4).map(|id| *device.note_by_note_index(id)).collect();
    let before_first = device.index(1).active_notes.clone();
    device.apply_event(&Event::NoteOff(1, note(ChromaticTone::D, 4), 1));
    device.apply_event(&Event::NoteOff(2, c4, 1));
    device.apply_event(&Event::NoteOff(1, note(ChromaticTone::C, 5), 1));
    let after_notes: Vec<NoteState> = (0..4).map(|id| *device.note_by_note_index(id)).collect();
    assert_eq!(after_notes, before_notes);
    assert_eq!(device.index(1).active_notes, before_first);
    assert!(device.index(2).active_notes.is_empty());
    assert_eq!(device.unused_notes_size(), 3);
}

#[test]
fn key_pressure_changes_the_velocity_only() {
    let mut device = DeviceState::new(1, 2);
    let c4 = note(ChromaticTone::C, 4);
    device.apply_event(&Event::NoteOn(1, c4, 64));
    device.apply_event(&Event::KeyPressure(1, c4, 99));
    assert_eq!(
        *device.note_by_note_index(1),
        NoteState { channel_id: Some(1), note: c4, velocity: 99 }
    );
    assert_eq!(device.index(1).active_notes, vec![1]);
    assert_eq!(device.unused_notes_size(), 1);
    device.apply_event(&Event::KeyPressure(1, note(ChromaticTone::D, 4), 5));
    assert_eq!(device.note_by_note_index(1).velocity, 99);
    assert_eq!(*device.note_by_note_index(0), NoteState::default());
}

#[test]
fn all_notes_off_frees_three_voices() {
    let mut device = DeviceState::new(2, 8);
    device.apply_event(&Event::NoteOn(1, note(ChromaticTone::C, 4), 64));
    device.apply_event(&Event::NoteOn(1, note(ChromaticTone::E, 4), 65));
    device.apply_event(&Event::NoteOn(2, note(ChromaticTone::A, 2), 70));
    device.apply_event(&Event::NoteOn(1, note(ChromaticTone::G, 4), 66));
    assert_eq!(device.index(1).active_notes.len(), 3);
    assert_eq!(device.unused_notes_size(), 4);
    device.apply_event(&Event::AllNotesOff(1));
    assert!(device.index(1).active_notes.is_empty());
    assert_eq!(device.unused_notes_size(), 7);
    assert_eq!(device.index(2).active_notes, vec![5]);
    for id in [7usize, 6, 4] {
        let state = device.note_by_note_index(id);
        assert_eq!(state.channel_id, None);
        assert_eq!(state.velocity, 0);
    }
    assert_eq!(device.note_by_note_index(7).note, note(ChromaticTone::C, 4));
    assert_eq!(device.note_by_note_index(5).velocity, 70);
    assert_invariant(&device, 8);
}

#[test]
fn all_notes_off_stacks_the_voices_oldest_lowest() {
    let mut device = DeviceState::new(1, 3);
    device.apply_event(&Event::NoteOn(1, note(ChromaticTone::C, 4), 1));
    device.apply_event(&Event::NoteOn(1, note(ChromaticTone::D, 4), 2));
    assert_eq!(device.index(1).active_notes, vec![2, 1]);
    device.apply_event(&Event::AllNotesOff(1));
    device.apply_event(&Event::NoteOn(1, note(ChromaticTone::E, 4), 3));
    assert_eq!(device.index(1).active_notes, vec![1]);
    device.apply_event(&Event::NoteOn(1, note(ChromaticTone::F, 4), 4));
    device.apply_event(&Event::NoteOn(1, note(ChromaticTone::G, 4), 5));
    assert_eq!(device.index(1).active_notes, vec![1, 2, 0]);
}

#[test]
fn all_notes_off_on_a_silent_channel() {
    let mut device = DeviceState::new(1, 2);
    device.apply_event(&Event::AllNotesOff(1));
    assert_eq!(device.unused_notes_size(), 2);
    assert!(device.index(1).active_notes.is_empty());
}

#[test]
fn other_events_are_ignored() {
    let mut device = DeviceState::new(1, 2);
    device.apply_event(&Event::NoteOn(1, note(ChromaticTone::C, 4), 64));
    for event in [
        Event::ProgramChange(1, 5),
        Event::Controller(1, 1, 2),
        Event::ChannelPan(1, 3),
        Event::ChannelVolume(1, 4),
        Event::SystemExclusive(1),
        Event::Unknown(0xd0),
        Event::ProgramChange(9, 5),
        Event::ChannelVolume(0, 4),
    ] {
        device.apply_event(&event);
        assert_eq!(device.unused_notes_size(), 1);
        assert_eq!(device.index(1).active_notes, vec![1]);
        assert_eq!(
            *device.note_by_note_index(1),
            NoteState { channel_id: Some(1), note: note(ChromaticTone::C, 4), velocity: 64 }
        );
    }
}

#[test]
fn exhaustion_drops_the_last_note() {
    for polyphony in [0usize, 1, 2, 8, 33] {
        let mut device = DeviceState::new(3, polyphony);
        for number in 0..polyphony {
            device.apply_event(&Event::NoteOn(2, pitch(number), 64));
            assert_eq!(device.unused_notes_size(), polyphony - number - 1);
        }
        let full: Vec<usize> = device.index(2).active_notes.clone();
        assert_eq!(full.len(), polyphony);
        device.apply_event(&Event::NoteOn(2, pitch(polyphony), 64));
        assert_eq!(device.index(2).active_notes, full);
        assert_eq!(device.unused_notes_size(), 0);
        for id in 0..polyphony {
            assert_ne!(device.note_by_note_index(id).note, pitch(polyphony));
        }
        assert_invariant(&device, polyphony);
    }
}

#[test]
fn exhaustion_on_another_channel_too() {
    let mut device = DeviceState::new(2, 2);
    device.apply_event(&Event::NoteOn(1, pitch(1), 1));
    device.apply_event(&Event::NoteOn(2, pitch(1), 1));
    device.apply_event(&Event::NoteOn(2, pitch(2), 1));
    assert_eq!(device.unused_notes_size(), 0);
    assert_eq!(device.index(1).active_notes, vec![1]);
    assert_eq!(device.index(2).active_notes, vec![0]);
    device.apply_event(&Event::NoteOff(1, pitch(1), 1));
    device.apply_event(&Event::NoteOn(2, pitch(2), 1));
    assert_eq!(device.index(2).active_notes, vec![0, 1]);
}

#[test]
fn polyphony_is_conserved_over_a_long_run() {
    let polyphony = 6;
    let mut device = DeviceState::new(3, polyphony);
    let mut seed: u32 = 12345;
    for _ in 0..4000 {
        seed = seed.wrapping_mul(1103515245).wrapping_add(12345);
        let kind = (seed >> 16) % 8;
        let channel = ((seed >> 20) % 3 + 1) as u8;
        let number = ((seed >> 8) % 9) as usize + 40;
        let velocity = (seed >> 24) as u8;
        let event = match kind {
            0 | 1 | 2 => Event::NoteOn(channel, pitch(number), velocity),
            3 | 4 => Event::NoteOff(channel, pitch(number), velocity),
            5 => Event::KeyPressure(channel, pitch(number), velocity),
            6 => Event::AllNotesOff(channel),
            _ => Event::ProgramChange(channel, velocity),
        };
        device.apply_event(&event);
        assert_invariant(&device, polyphony);
    }
}

#[test]
fn note_state_on_off_and_pressure() {
    let mut state = NoteState::default();
    state.on(3, &note(ChromaticTone::G, 2), 80);
    assert_eq!(
        state,
        NoteState { channel_id: Some(3), note: note(ChromaticTone::G, 2), velocity: 80 }
    );
    state.key_pressure(81);
    assert_eq!(
        state,
        NoteState { channel_id: Some(3), note: note(ChromaticTone::G, 2), velocity: 81 }
    );
    state.off(7);
    assert_eq!(
        state,
        NoteState { channel_id: None, note: note(ChromaticTone::G, 2), velocity: 7 }
    );
}

#[test]
fn device_tells_which_events_it_takes() {
    let device = DeviceState::new(3, 2);
    assert_eq!(device.polyphony(), 2);
    assert!(!device.has_channel(0));
    assert!(device.has_channel(1));
    assert!(device.has_channel(3));
    assert!(!device.has_channel(4));
    assert!(!device.has_channel(255));
    let c4 = note(ChromaticTone::C, 4);
    assert!(device.accepts(&Event::NoteOn(3, c4, 1)));
    assert!(!device.accepts(&Event::NoteOn(4, c4, 1)));
    assert!(!device.accepts(&Event::NoteOff(0, c4, 1)));
    assert!(device.accepts(&Event::NoteOff(1, c4, 1)));
    assert!(!device.accepts(&Event::KeyPressure(9, c4, 1)));
    assert!(device.accepts(&Event::KeyPressure(2, c4, 1)));
    assert!(!device.accepts(&Event::AllNotesOff(0)));
    assert!(device.accepts(&Event::AllNotesOff(3)));
    assert!(device.accepts(&Event::ProgramChange(0, 1)));
    assert!(device.accepts(&Event::Controller(200, 1, 2)));
    assert!(device.accepts(&Event::ChannelPan(0, 1)));
    assert!(device.accepts(&Event::ChannelVolume(77, 1)));
    assert!(device.accepts(&Event::SystemExclusive(16)));
    assert!(device.accepts(&Event::Unknown(0)));
}

#[test]
fn device_with_more_channels_than_a_channel_number_can_name() {
    let mut device = DeviceState::new(300, 2);
    assert_eq!(device.num_channels(), 300);
    assert!(device.has_channel(255));
    device.apply_event(&Event::NoteOn(255, note(ChromaticTone::C, 4), 9));
    assert_eq!(device.index(255).active_notes, vec![1]);
    assert_eq!(device.note_by_note_index(1).channel_id, Some(255));
    assert_eq!(device.unused_notes_size(), 1);
}
