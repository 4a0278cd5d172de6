//! Encode MIDI events to bytes.

use vstd::prelude::*;
use crate::chromatic::ChromaticNote;
use crate::event::{
    pitch_byte, status_byte, Channel, Event, Modulation, StatusCode, Velocity,
    CONTROLLER_ALL_NOTES_OFF, CONTROLLER_CHANNEL_PAN, CONTROLLER_CHANNEL_VOLUME,
    STATUS_CONTROLLER, STATUS_KEY_PRESSURE, STATUS_NOTE_OFF, STATUS_NOTE_ON,
    STATUS_PROGRAM_CHANGE,
};

verus! {

/// The two data bytes of a 14-bit value: the bits above the low seven, as far as
/// they fit a byte, then the low seven.
pub open spec fn modulation_bytes(modulation: Modulation) -> Seq<u8> {
    seq![((modulation / 128) % 256) as u8, (modulation % 128) as u8]
}

impl Event {
    /// Whether the event can be encoded: it has a wire form, its channel is not
    /// 0, and its note, if it has one, has a pitch byte.
    pub open spec fn encodable(self) -> bool {
        &&& self.has_wire_form()
        &&& self.channel_spec() matches Some(c) && c >= 1
        &&& self.note_spec() matches Some(n) ==> pitch_byte(n) <= u8::MAX
    }

    /// The bytes that stand for the event on the wire; none for an event without
    /// a wire form.
    pub open spec fn wire_bytes(self) -> Seq<u8> {
        match self {
            Event::NoteOn(c, n, v) => seq![status_byte(STATUS_NOTE_ON, c), pitch_byte(n) as u8, v],
            Event::NoteOff(c, n, v) => seq![
                status_byte(STATUS_NOTE_OFF, c),
                pitch_byte(n) as u8,
                v,
            ],
            Event::KeyPressure(c, n, p) => seq![
                status_byte(STATUS_KEY_PRESSURE, c),
                pitch_byte(n) as u8,
                p,
            ],
            Event::ProgramChange(c, p) => seq![status_byte(STATUS_PROGRAM_CHANGE, c), p],
            Event::Controller(c, k, v) => seq![status_byte(STATUS_CONTROLLER, c), k, v],
            Event::ChannelPan(c, v) => seq![
                status_byte(STATUS_CONTROLLER, c),
                CONTROLLER_CHANNEL_PAN,
                v,
            ],
            Event::ChannelVolume(c, v) => seq![
                status_byte(STATUS_CONTROLLER, c),
                CONTROLLER_CHANNEL_VOLUME,
                v,
            ],
            Event::AllNotesOff(c) => seq![
                status_byte(STATUS_CONTROLLER, c),
                CONTROLLER_ALL_NOTES_OFF,
                0u8,
            ],
            Event::SystemExclusive(_) => Seq::empty(),
            Event::Unknown(_) => Seq::empty(),
        }
    }
}

/// Tells whether the note has a pitch byte: whether its place on the wire fits a
/// byte.
pub fn has_pitch_byte(note: &ChromaticNote) -> (fits: bool)
    ensures
        fits == (pitch_byte(*note) <= u8::MAX),
{
    (note.octave as u16 + 1) * 12 + note.tone.index() as u16 <= 255
}

/// A sink of bytes that MIDI messages are written to, piece by piece.
pub trait MidiEventEncoder {
    /// The bytes written so far.
    spec fn written(&self) -> Seq<u8>;

    fn write_byte(&mut self, byte: u8)
        ensures
            final(self).written() == old(self).written().push(byte),
    ;

    fn encode_controller_channel(&mut self, channel: Channel, controller_byte: u8)
        requires
            channel >= 1,
        ensures
            final(self).written() == old(self).written().push(
                status_byte(STATUS_CONTROLLER, channel),
            ).push(controller_byte),
    {
        self.encode_status_and_channel(STATUS_CONTROLLER, channel);
        self.write_byte(controller_byte);
    }

    fn encode_status_and_channel(&mut self, status: StatusCode, channel: Channel)
        requires
            channel >= 1,
        ensures
            final(self).written() == old(self).written().push(status_byte(status, channel)),
    {
        let zero_based_channel = channel - 1;
        let byte = status | zero_based_channel;
        self.write_byte(byte);
    }

    fn encode_note(&mut self, note: ChromaticNote)
        requires
            pitch_byte(note) <= u8::MAX,
        ensures
            final(self).written() == old(self).written().push(pitch_byte(note) as u8),
    {
        let byte = (note.octave + 1) * 12 + note.tone.index();
        self.write_byte(byte);
    }

    fn encode_velocity(&mut self, velocity: Velocity)
        ensures
            final(self).written() == old(self).written().push(velocity),
    {
        self.write_byte(velocity);
    }

    fn encode_controller_with_value(&mut self, controller: u8, value: u8)
        ensures
            final(self).written() == old(self).written().push(controller).push(value),
    {
        self.encode_controller(controller);
        self.encode_value(value);
    }

    fn encode_controller(&mut self, controller: u8)
        ensures
            final(self).written() == old(self).written().push(controller),
    {
        self.write_byte(controller);
    }

    fn encode_value(&mut self, value: Velocity)
        ensures
            final(self).written() == old(self).written().push(value),
    {
        self.write_byte(value);
    }

    fn encode_modulation(&mut self, modulation: Modulation)
        ensures
            final(self).written() == old(self).written() + modulation_bytes(modulation),
    {
        let byte2 = (modulation & 0b01111111) as u8;
        let byte1 = #[verifier::truncate] ((modulation >> 7) as u8);
        assert(modulation & 0b01111111 == modulation % 128) by (bit_vector);
        assert((modulation >> 7) as u8 == ((modulation / 128) % 256) as u8) by (bit_vector);
        self.write_byte(byte1);
        self.write_byte(byte2);
        assert(final(self).written() =~= old(self).written() + modulation_bytes(modulation));
    }
}

impl MidiEventEncoder for Vec<u8> {
    open spec fn written(&self) -> Seq<u8> {
        self@
    }

    fn write_byte(&mut self, byte: u8) {
        self.push(byte);
    }
}

impl Event {
    /// Tells whether the event can be encoded, as `encode_into` asks.
    pub fn is_encodable(&self) -> (encodable: bool)
        ensures
            encodable == self.encodable(),
    {
        match self {
            Self::NoteOn(channel, note, _) => *channel >= 1 && has_pitch_byte(note),
            Self::NoteOff(channel, note, _) => *channel >= 1 && has_pitch_byte(note),
            Self::KeyPressure(channel, note, _) => *channel >= 1 && has_pitch_byte(note),
            Self::ProgramChange(channel, _) => *channel >= 1,
            Self::Controller(channel, _, _) => *channel >= 1,
            Self::ChannelPan(channel, _) => *channel >= 1,
            Self::ChannelVolume(channel, _) => *channel >= 1,
            Self::AllNotesOff(channel) => *channel >= 1,
            Self::SystemExclusive(_) => false,
            Self::Unknown(_) => false,
        }
    }

    /// Appends the event's bytes to `r_result`.
    pub fn encode_into(&self, r_result: &mut Vec<u8>)
        requires
            self.encodable(),
        ensures
            final(r_result)@ == old(r_result)@ + self.wire_bytes(),
    {
        match self {
            Self::AllNotesOff(channel) => {
                r_result.encode_controller_channel(*channel, CONTROLLER_ALL_NOTES_OFF);
                r_result.encode_value(0);
            },
            Self::NoteOn(channel, note, velocity) => {
                r_result.encode_status_and_channel(STATUS_NOTE_ON, *channel);
                r_result.encode_note(*note);
                r_result.encode_velocity(*velocity);
            },
            Self::NoteOff(channel, note, velocity) => {
                r_result.encode_status_and_channel(STATUS_NOTE_OFF, *channel);
                r_result.encode_note(*note);
                r_result.encode_velocity(*velocity);
            },
            Self::ChannelPan(channel, value) => {
                r_result.encode_status_and_channel(STATUS_CONTROLLER, *channel);
                r_result.encode_controller_with_value(CONTROLLER_CHANNEL_PAN, *value);
            },
            Self::ChannelVolume(channel, volume) => {
                r_result.encode_status_and_channel(STATUS_CONTROLLER, *channel);
                r_result.encode_controller_with_value(CONTROLLER_CHANNEL_VOLUME, *volume);
            },
            Self::KeyPressure(channel, note, pressure) => {
                r_result.encode_status_and_channel(STATUS_KEY_PRESSURE, *channel);
                r_result.encode_note(*note);
                r_result.encode_value(*pressure);
            },
            Self::ProgramChange(channel, program) => {
                r_result.encode_status_and_channel(STATUS_PROGRAM_CHANGE, *channel);
                r_result.encode_value(*program);
            },
            Self::Controller(channel, value1, value2) => {
                r_result.encode_status_and_channel(STATUS_CONTROLLER, *channel);
                r_result.encode_value(*value1);
                r_result.encode_value(*value2);
            },
            // Events without a wire form are not handed in.
            Self::SystemExclusive(_) | Self::Unknown(_) => {},
        }
        assert(r_result@ =~= old(r_result)@ + self.wire_bytes());
    }
}

} // verus!
