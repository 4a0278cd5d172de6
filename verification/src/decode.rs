//! Decode MIDI events from bytes.

use vstd::prelude::*;
use crate::chromatic::ChromaticNote;
use crate::event::{
    channel_of, note_of_pitch_byte, status_of, Channel, Event, Modulation, StatusCode, Value,
    Velocity, CONTROLLER_ALL_NOTES_OFF, CONTROLLER_CHANNEL_PAN, CONTROLLER_CHANNEL_VOLUME,
    LOWEST_PITCH_BYTE, MAX_WIRE_CHANNEL, STATUS_CONTROLLER, STATUS_KEY_PRESSURE,
    STATUS_NOTE_OFF, STATUS_NOTE_ON, STATUS_PROGRAM_CHANGE, STATUS_SYSTEM_EXCLUSIVE,
};
use crate::note::Note;
use crate::scale::{Chromatic, Scale};
use crate::tone::ChromaticTone;

verus! {

/// Whether messages of this status carry a pitch byte and a velocity.
pub open spec fn carries_note(status: StatusCode) -> bool {
    status == STATUS_NOTE_ON || status == STATUS_NOTE_OFF || status == STATUS_KEY_PRESSURE
}

/// The number of bytes that are read of a message with this first byte.
pub open spec fn wire_len(first: u8) -> nat {
    let status = status_of(first);
    if carries_note(status) || status == STATUS_CONTROLLER {
        3
    } else if status == STATUS_PROGRAM_CHANGE {
        2
    } else {
        1
    }
}

/// Whether `bytes` begins with one whole message: the data bytes that its status
/// asks for are there, and a pitch byte names a note of octave 0 or above.
pub open spec fn well_framed(bytes: Seq<u8>) -> bool {
    &&& bytes.len() >= 1
    &&& bytes.len() >= wire_len(bytes[0])
    &&& carries_note(status_of(bytes[0])) ==> bytes[1] >= LOWEST_PITCH_BYTE
}

/// The event that a framed message stands for.
pub open spec fn decoded(bytes: Seq<u8>) -> Event {
    let status = status_of(bytes[0]);
    let channel = channel_of(bytes[0]);
    if status == STATUS_NOTE_ON {
        Event::NoteOn(channel, note_of_pitch_byte(bytes[1]), bytes[2])
    } else if status == STATUS_NOTE_OFF {
        Event::NoteOff(channel, note_of_pitch_byte(bytes[1]), bytes[2])
    } else if status == STATUS_KEY_PRESSURE {
        Event::KeyPressure(channel, note_of_pitch_byte(bytes[1]), bytes[2])
    } else if status == STATUS_CONTROLLER {
        if bytes[1] == CONTROLLER_CHANNEL_VOLUME {
            Event::ChannelVolume(channel, bytes[2])
        } else if bytes[1] == CONTROLLER_CHANNEL_PAN {
            Event::ChannelPan(channel, bytes[2])
        } else if bytes[1] == CONTROLLER_ALL_NOTES_OFF {
            Event::AllNotesOff(channel)
        } else {
            Event::Controller(channel, bytes[1], bytes[2])
        }
    } else if status == STATUS_PROGRAM_CHANGE {
        Event::ProgramChange(channel, bytes[1])
    } else if status == STATUS_SYSTEM_EXCLUSIVE {
        Event::SystemExclusive(channel)
    } else {
        Event::Unknown(status)
    }
}

/// The 14-bit value that two data bytes carry, the high seven bits first.
pub open spec fn modulation_of_bytes(high: u8, low: u8) -> int {
    high * 128 + low
}

/// Reads the status code and the channel of the byte at `index`.
pub fn decode_status_and_channel(midi_message: &[u8], index: &mut usize) -> (decoded: (
    StatusCode,
    Channel,
))
    requires
        *old(index) < midi_message@.len(),
    ensures
        *final(index) == *old(index) + 1,
        decoded.0 == status_of(midi_message@[*old(index) as int]),
        decoded.1 == channel_of(midi_message@[*old(index) as int]),
        1 <= decoded.1 <= 16,
{
    let first = midi_message[*index];
    assert(first & 0xf0 == first - first % 16) by (bit_vector);
    assert(first & 0x0f == first % 16) by (bit_vector);
    let status_code = first & 0xf0;
    let channel = (first & 0x0f) + 1;
    *index += 1;
    (status_code, channel)
}

/// Decode the note part of a midi message to a music note.
pub fn decode_note(midi_message: &[u8], index: &mut usize) -> (note: ChromaticNote)
    requires
        *old(index) < midi_message@.len(),
        midi_message@[*old(index) as int] >= LOWEST_PITCH_BYTE,
    ensures
        *final(index) == *old(index) + 1,
        note == note_of_pitch_byte(midi_message@[*old(index) as int]),
{
    let scale = Chromatic::default();
    let midi_note = midi_message[*index];
    let octave = (midi_note / scale.tones_per_octave() as u8) - 1;
    let note_index = midi_note % scale.tones_per_octave() as u8;

    *index += 1;

    Note::new(ChromaticTone::from_index(note_index), octave)
}

/// Reads the velocity at `index`.
pub fn decode_velocity(midi_message: &[u8], index: &mut usize) -> (velocity: Velocity)
    requires
        *old(index) < midi_message@.len(),
    ensures
        *final(index) == *old(index) + 1,
        velocity == midi_message@[*old(index) as int],
{
    let velocity = midi_message[*index];
    *index += 1;
    velocity
}

/// Reads the 14-bit value of the two data bytes at `index`.
pub fn decode_modulation(midi_message: &[u8], index: &mut usize) -> (modulation: Modulation)
    requires
        *old(index) + 1 < midi_message@.len(),
    ensures
        *final(index) == *old(index) + 2,
        modulation == modulation_of_bytes(
            midi_message@[*old(index) as int],
            midi_message@[*old(index) + 1],
        ),
{
    let (value1, value2) = decode_two_values(midi_message, index);
    assert((value1 as u16) << 7 == (value1 as u16) * 128) by (bit_vector);
    let modulation = ((value1 as u16) << 7) + value2 as u16;
    modulation
}

/// Reads the data byte at `index`.
pub fn decode_value(midi_message: &[u8], index: &mut usize) -> (value: Value)
    requires
        *old(index) < midi_message@.len(),
    ensures
        *final(index) == *old(index) + 1,
        value == midi_message@[*old(index) as int],
{
    let value = midi_message[*index];
    *index += 1;
    value
}

/// Reads the two data bytes at `index`.
pub fn decode_two_values(midi_message: &[u8], index: &mut usize) -> (values: (Value, Value))
    requires
        *old(index) + 1 < midi_message@.len(),
    ensures
        *final(index) == *old(index) + 2,
        values.0 == midi_message@[*old(index) as int],
        values.1 == midi_message@[*old(index) + 1],
{
    let first = decode_value(midi_message, index);
    let second = decode_value(midi_message, index);
    (first, second)
}

/// Tells whether `midi_message` begins with one whole message, as
/// `decode_midi_event` asks.
pub fn is_well_framed(midi_message: &[u8]) -> (framed: bool)
    ensures
        framed == well_framed(midi_message@),
{
    if midi_message.len() == 0 {
        return false;
    }
    let first = midi_message[0];
    assert(first & 0xf0 == first - first % 16) by (bit_vector);
    let status_code = first & 0xf0;
    if status_code == STATUS_NOTE_ON || status_code == STATUS_NOTE_OFF || status_code
        == STATUS_KEY_PRESSURE {
        midi_message.len() >= 3 && midi_message[1] >= LOWEST_PITCH_BYTE
    } else if status_code == STATUS_CONTROLLER {
        midi_message.len() >= 3
    } else if status_code == STATUS_PROGRAM_CHANGE {
        midi_message.len() >= 2
    } else {
        true
    }
}

/// Decodes the message that `midi_message` begins with.
pub fn decode_midi_event(midi_message: &[u8]) -> (event: Event)
    requires
        well_framed(midi_message@),
    ensures
        event == decoded(midi_message@),
        event.channel_spec() matches Some(channel) ==> 1 <= channel <= MAX_WIRE_CHANNEL,
{
    let mut index: usize = 0;
    let (status_code, channel) = decode_status_and_channel(midi_message, &mut index);
    if status_code == STATUS_NOTE_ON {
        let note = decode_note(midi_message, &mut index);
        Event::NoteOn(channel, note, decode_velocity(midi_message, &mut index))
    } else if status_code == STATUS_NOTE_OFF {
        let note = decode_note(midi_message, &mut index);
        Event::NoteOff(channel, note, decode_velocity(midi_message, &mut index))
    } else if status_code == STATUS_KEY_PRESSURE {
        let note = decode_note(midi_message, &mut index);
        Event::KeyPressure(channel, note, decode_velocity(midi_message, &mut index))
    } else if status_code == STATUS_CONTROLLER {
        let (value_1, value_2) = decode_two_values(midi_message, &mut index);
        if value_1 == CONTROLLER_CHANNEL_VOLUME {
            Event::ChannelVolume(channel, value_2)
        } else if value_1 == CONTROLLER_CHANNEL_PAN {
            Event::ChannelPan(channel, value_2)
        } else if value_1 == CONTROLLER_ALL_NOTES_OFF {
            Event::AllNotesOff(channel)
        } else {
            Event::Controller(channel, value_1, value_2)
        }
    } else if status_code == STATUS_PROGRAM_CHANGE {
        Event::ProgramChange(channel, decode_value(midi_message, &mut index))
    } else if status_code == STATUS_SYSTEM_EXCLUSIVE {
        Event::SystemExclusive(channel)
    } else {
        Event::Unknown(status_code)
    }
}

} // verus!
