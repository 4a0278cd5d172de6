//! Encoding and decoding undo each other.

use vstd::prelude::*;
use crate::chromatic::ChromaticNote;
use crate::decode::{carries_note, decoded, modulation_of_bytes, well_framed, wire_len};
use crate::encode::modulation_bytes;
use crate::event::{
    channel_of, note_of_pitch_byte, pitch_byte, status_byte, status_of, Channel, Event,
    Modulation, StatusCode, CONTROLLER_ALL_NOTES_OFF, CONTROLLER_CHANNEL_PAN,
    CONTROLLER_CHANNEL_VOLUME, LOWEST_PITCH_BYTE, MAX_WIRE_CHANNEL, STATUS_CONTROLLER,
    STATUS_KEY_PRESSURE, STATUS_NOTE_OFF, STATUS_NOTE_ON, STATUS_PROGRAM_CHANGE,
};
use crate::tone::ChromaticTone;

verus! {

/// Whether a controller number is one that decoding reads as an event of its own.
pub open spec fn reserved_controller(controller: u8) -> bool {
    controller == CONTROLLER_CHANNEL_VOLUME || controller == CONTROLLER_CHANNEL_PAN || controller
        == CONTROLLER_ALL_NOTES_OFF
}

impl Event {
    /// Whether the event is one that the wire can carry and hand back: it can be
    /// encoded, its channel fits the low nibble, and it is no general controller
    /// event under a reserved controller number.
    pub open spec fn round_trips(self) -> bool {
        &&& self.encodable()
        &&& self.channel_spec() matches Some(c) && c <= MAX_WIRE_CHANNEL
        &&& self matches Event::Controller(_, k, _) ==> !reserved_controller(k)
    }
}

/// For a status code in the high nibble and a channel from 1 to 16, the first byte
/// of a message is their sum less one, and both can be read back from it.
pub proof fn lemma_status_byte(status: StatusCode, channel: Channel)
    requires
        status % 16 == 0,
        1 <= channel <= MAX_WIRE_CHANNEL,
    ensures
        status_byte(status, channel) == status + channel - 1,
        status_of(status_byte(status, channel)) == status,
        channel_of(status_byte(status, channel)) == channel,
{
    let low: u8 = (channel - 1) as u8;
    assert(status | low == status + low) by (bit_vector)
        requires
            status % 16 == 0,
            low < 16,
    ;
}

/// A note that has a pitch byte is the note that its pitch byte stands for.
pub proof fn lemma_pitch_byte(note: ChromaticNote)
    requires
        pitch_byte(note) <= u8::MAX,
    ensures
        pitch_byte(note) >= LOWEST_PITCH_BYTE,
        note_of_pitch_byte(pitch_byte(note) as u8) == note,
{
    let raw = pitch_byte(note);
    let index = note.tone.index_spec();
    assert(0 <= index < 12);
    assert(raw % 12 == index && raw / 12 == note.octave + 1) by (nonlinear_arith)
        requires
            raw == (note.octave + 1) * 12 + index,
            0 <= index < 12,
    ;
    assert(ChromaticTone::at(index) == note.tone);
}

/// A pitch byte from `LOWEST_PITCH_BYTE` up is the pitch byte of its note.
pub proof fn lemma_note_of_pitch_byte(raw: u8)
    requires
        raw >= LOWEST_PITCH_BYTE,
    ensures
        pitch_byte(note_of_pitch_byte(raw)) == raw,
{
    let index = raw as int % 12;
    assert(ChromaticTone::at(index).index_spec() == index);
}

/// Decoding the encoding of an event gives the event back.
pub proof fn lemma_decode_encode(event: Event)
    requires
        event.round_trips(),
    ensures
        well_framed(event.wire_bytes()),
        decoded(event.wire_bytes()) == event,
{
    match event {
        Event::NoteOn(c, n, _) => {
            lemma_status_byte(STATUS_NOTE_ON, c);
            lemma_pitch_byte(n);
        },
        Event::NoteOff(c, n, _) => {
            lemma_status_byte(STATUS_NOTE_OFF, c);
            lemma_pitch_byte(n);
        },
        Event::KeyPressure(c, n, _) => {
            lemma_status_byte(STATUS_KEY_PRESSURE, c);
            lemma_pitch_byte(n);
        },
        Event::ProgramChange(c, _) => {
            lemma_status_byte(STATUS_PROGRAM_CHANGE, c);
        },
        Event::Controller(c, _, _) => {
            lemma_status_byte(STATUS_CONTROLLER, c);
        },
        Event::ChannelPan(c, _) => {
            lemma_status_byte(STATUS_CONTROLLER, c);
        },
        Event::ChannelVolume(c, _) => {
            lemma_status_byte(STATUS_CONTROLLER, c);
        },
        Event::AllNotesOff(c) => {
            lemma_status_byte(STATUS_CONTROLLER, c);
        },
        Event::SystemExclusive(_) => {},
        Event::Unknown(_) => {},
    }
}

/// What a framed message decodes to can be handed back to the wire: where the
/// event has a wire form it round-trips, and its encoding is the message as it was
/// read, but for the last byte of an all-notes-off message, which is written as 0.
pub proof fn lemma_encode_decode(bytes: Seq<u8>)
    requires
        well_framed(bytes),
        decoded(bytes).has_wire_form(),
    ensures
        decoded(bytes).round_trips(),
        decoded(bytes).wire_bytes() == if decoded(bytes) is AllNotesOff {
            bytes.subrange(0, 3).update(2, 0u8)
        } else {
            bytes.subrange(0, wire_len(bytes[0]) as int)
        },
{
    let first = bytes[0];
    let status = status_of(first);
    let channel = channel_of(first);
    lemma_status_byte(status, channel);
    assert(status_byte(status, channel) == first);
    if carries_note(status) {
        lemma_note_of_pitch_byte(bytes[1]);
    }
    let event = decoded(bytes);
    let expected = if event is AllNotesOff {
        bytes.subrange(0, 3).update(2, 0u8)
    } else {
        bytes.subrange(0, wire_len(first) as int)
    };
    assert(event.wire_bytes() =~= expected);
}

/// A value of up to fifteen bits is the value that its two data bytes carry.
pub proof fn lemma_modulation_round_trip(modulation: Modulation)
    requires
        modulation < 0x8000,
    ensures
        modulation_of_bytes(modulation_bytes(modulation)[0], modulation_bytes(modulation)[1])
            == modulation,
{
}

} // verus!
