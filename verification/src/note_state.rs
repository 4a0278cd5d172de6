//! The state of one voice of a device.

use vstd::prelude::*;
use crate::chromatic::ChromaticNote;
use crate::event::{Channel, Velocity};
use crate::note::Note;
use crate::tone::ChromaticTone;

verus! {

/// Index of a voice in its device.
pub type NoteStateId = usize;

/// One voice. While `channel_id` is `None` the voice is free, and its note and
/// velocity are what was last played on it.
#[derive(Debug, Copy, Clone, PartialEq, Eq, Structural)]
pub struct NoteState {
    pub channel_id: Option<Channel>,
    pub note: ChromaticNote,
    pub velocity: Velocity,
}

impl Default for NoteState {
    /// A free voice that last held middle C at velocity 0.
    fn default() -> (state: Self)
        ensures
            state == NoteState::idle(),
    {
        NoteState { channel_id: None, note: Note::new(ChromaticTone::C, 4), velocity: 0 }
    }
}

impl NoteState {
    /// The state of a voice that has not sounded yet.
    pub open spec fn idle() -> NoteState {
        NoteState {
            channel_id: None,
            note: Note { tone: ChromaticTone::C, octave: 4 },
            velocity: 0,
        }
    }

    /// The voice, released with `velocity`.
    pub open spec fn released(self, velocity: Velocity) -> NoteState {
        NoteState { channel_id: None, note: self.note, velocity }
    }

    /// The voice, pressed on with `velocity`.
    pub open spec fn pressed(self, velocity: Velocity) -> NoteState {
        NoteState { channel_id: self.channel_id, note: self.note, velocity }
    }

    /// Releases the voice.
    pub fn off(&mut self, velocity: Velocity)
        ensures
            *final(self) == old(self).released(velocity),
    {
        self.velocity = velocity;
        self.channel_id = None;
    }

    /// Takes the voice for `note` on channel `channel_id`.
    pub fn on(&mut self, channel_id: Channel, note: &ChromaticNote, velocity: Velocity)
        ensures
            *final(self) == (NoteState { channel_id: Some(channel_id), note: *note, velocity }),
    {
        self.channel_id = Some(channel_id);
        self.note = *note;
        self.velocity = velocity;
    }

    /// Changes the pressure on the voice.
    pub fn key_pressure(&mut self, velocity: Velocity)
        ensures
            *final(self) == old(self).pressed(velocity),
    {
        self.velocity = velocity;
    }
}

} // verus!
