//! MIDI events and the constants of their wire format.

use vstd::prelude::*;
use crate::chromatic::ChromaticNote;
use crate::note::Note;
use crate::tone::ChromaticTone;

verus! {

/// Status code of a note off message.
pub const STATUS_NOTE_OFF: u8 = 0x80;

/// Status code of a note on message.
pub const STATUS_NOTE_ON: u8 = 0x90;

/// Status code of a key pressure message.
pub const STATUS_KEY_PRESSURE: u8 = 0xa0;

/// Status code of a controller message.
pub const STATUS_CONTROLLER: u8 = 0xb0;

/// Status code of a program change message.
pub const STATUS_PROGRAM_CHANGE: u8 = 0xc0;

/// Status code of a channel pressure message. No event stands for it.
pub const STATUS_CHANNEL_PRESSURE: u8 = 0xd0;

/// Status code of a modulation wheel message. No event stands for it.
pub const STATUS_MODULATION_WHEEL: u8 = 0xe0;

/// Status code of a system exclusive message.
pub const STATUS_SYSTEM_EXCLUSIVE: u8 = 0xf0;

/// Controller number that sets the volume of a channel.
pub const CONTROLLER_CHANNEL_VOLUME: u8 = 7;

/// Controller number that sets the pan of a channel.
pub const CONTROLLER_CHANNEL_PAN: u8 = 10;

/// Controller number that stops all notes of a channel.
pub const CONTROLLER_ALL_NOTES_OFF: u8 = 123;

/// Highest channel that the low nibble of a status byte can name.
pub const MAX_WIRE_CHANNEL: u8 = 16;

/// Lowest pitch byte whose octave has a number: C of octave 0.
pub const LOWEST_PITCH_BYTE: u8 = 12;

/// The high nibble of a message's first byte, in its place.
pub type StatusCode = u8;

/// A data byte. MIDI uses its low seven bits.
pub type Value = u8;

/// A channel's number. Channels count from 1; 0 names no channel.
pub type Channel = Value;

pub type Velocity = Value;

pub type Pressure = Value;

pub type Program = Value;

/// A 14-bit value carried by two data bytes of seven bits each.
pub type Modulation = u16;

/// A time in MIDI ticks.
pub type Ticks = usize;

/// One MIDI message, without its timing.
///
/// A message whose status code is none of those that have a variant of their own
/// is `Unknown`, with its status code.
#[derive(Debug, Copy, Clone, PartialEq, Eq, Structural)]
pub enum Event {
    NoteOn(Channel, ChromaticNote, Velocity),
    NoteOff(Channel, ChromaticNote, Velocity),
    KeyPressure(Channel, ChromaticNote, Pressure),
    ProgramChange(Channel, Program),
    Controller(Channel, u8, u8),
    ChannelPan(Channel, Value),
    ChannelVolume(Channel, Value),
    AllNotesOff(Channel),
    SystemExclusive(Channel),
    Unknown(u8),
}

/// The byte that stands for a note on the wire: C of octave 0 is 12, and each
/// semitone adds one.
pub open spec fn pitch_byte(note: ChromaticNote) -> int {
    (note.octave + 1) * 12 + note.tone.index_spec()
}

/// The note that a pitch byte of at least `LOWEST_PITCH_BYTE` stands for.
pub open spec fn note_of_pitch_byte(raw: u8) -> ChromaticNote {
    Note { tone: ChromaticTone::at(raw as int % 12), octave: (raw as int / 12 - 1) as u8 }
}

/// The first byte of a message: the status code with the zero-based channel in
/// its low bits.
pub open spec fn status_byte(status: StatusCode, channel: Channel) -> u8 {
    status | ((channel - 1) as u8)
}

/// The status code in the high nibble of a message's first byte.
pub open spec fn status_of(first: u8) -> StatusCode {
    (first - first % 16) as u8
}

/// The channel named by the low nibble of a message's first byte.
pub open spec fn channel_of(first: u8) -> Channel {
    (first % 16 + 1) as u8
}

impl Event {
    /// The channel the event is addressed to; an unknown message has none.
    pub open spec fn channel_spec(self) -> Option<Channel> {
        match self {
            Event::NoteOn(c, _, _) => Some(c),
            Event::NoteOff(c, _, _) => Some(c),
            Event::KeyPressure(c, _, _) => Some(c),
            Event::ProgramChange(c, _) => Some(c),
            Event::Controller(c, _, _) => Some(c),
            Event::ChannelPan(c, _) => Some(c),
            Event::ChannelVolume(c, _) => Some(c),
            Event::AllNotesOff(c) => Some(c),
            Event::SystemExclusive(c) => Some(c),
            Event::Unknown(_) => None,
        }
    }

    /// The note the event speaks of, if it speaks of one.
    pub open spec fn note_spec(self) -> Option<ChromaticNote> {
        match self {
            Event::NoteOn(_, n, _) => Some(n),
            Event::NoteOff(_, n, _) => Some(n),
            Event::KeyPressure(_, n, _) => Some(n),
            _ => None,
        }
    }

    /// Whether the event has an encoding. System exclusive and unknown messages
    /// are only ever received.
    pub open spec fn has_wire_form(self) -> bool {
        !(self is SystemExclusive) && !(self is Unknown)
    }
}

} // verus!
