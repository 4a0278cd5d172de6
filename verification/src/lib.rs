//! MIDI wire codec and polyphonic voice allocation, with the music notes they speak of.
//!
//! The codec turns the bytes of one MIDI message into an [`Event`] and back. A
//! [`DeviceState`] holds a fixed number of voices and shares them out among its
//! channels as events are applied to it.

pub mod channel;
pub mod chords;
pub mod chromatic;
pub mod decode;
pub mod device;
pub mod device_laws;
pub mod device_model;
pub mod encode;
pub mod event;
pub mod message;
pub mod note;
pub mod note_state;
pub mod notes;
pub mod piano_keys;
pub mod port_descriptor;
pub mod round_trip;
pub mod scale;
pub mod tone;

pub use channel::ChannelState;
pub use chords::ChordScale;
pub use chromatic::{ChromaticNote, NoteStep};
pub use decode::{
    decode_midi_event, decode_modulation, decode_note, decode_status_and_channel,
    decode_two_values, decode_value, decode_velocity,
};
pub use device::DeviceState;
pub use encode::MidiEventEncoder;
pub use event::{
    Channel, Event, Modulation, Pressure, Program, StatusCode, Ticks, Value, Velocity,
    CONTROLLER_ALL_NOTES_OFF, CONTROLLER_CHANNEL_PAN, CONTROLLER_CHANNEL_VOLUME,
    STATUS_CHANNEL_PRESSURE, STATUS_CONTROLLER, STATUS_KEY_PRESSURE, STATUS_MODULATION_WHEEL,
    STATUS_NOTE_OFF, STATUS_NOTE_ON, STATUS_PROGRAM_CHANGE, STATUS_SYSTEM_EXCLUSIVE,
};
pub use message::{Message, RawMessage};
pub use note::{Note, Octave};
pub use note_state::{NoteState, NoteStateId};
pub use piano_keys::{white_keys, BlackKeys, PianoKey};
pub use port_descriptor::{PortDescriptor, PortType};
pub use scale::{Chromatic, Scale};
pub use tone::ChromaticTone;
