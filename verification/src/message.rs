//! Timed MIDI messages, as they are exchanged with a driver.

use vstd::prelude::*;
use crate::decode::{decode_midi_event, decoded, well_framed};
use crate::event::{Event, Ticks};

verus! {

/// Message is the combination of a delta_time and event.
///
/// Most of the time delta_time isn't important when processing/constructing
/// an event, only when serializing/deserializing the timing is required.
/// In order to reduce complexity in the API the Message and Event are
/// two separate data types.
#[derive(Debug, Copy, Clone, PartialEq, Eq, Structural)]
pub struct Message {
    /// Time since the last received midi message in midi ticks.
    pub delta_time: Ticks,
    /// Midi event of this message.
    pub event: Event,
}

/// A message as a driver hands it over or takes it: the frame it falls on within
/// the processing cycle, and its bytes.
#[derive(Debug, Copy, Clone)]
pub struct RawMessage<'a> {
    pub time: u32,
    pub bytes: &'a [u8],
}

impl Message {
    /// The message that a driver's raw message stands for.
    pub fn from_raw(raw: &RawMessage) -> (message: Message)
        requires
            well_framed(raw.bytes@),
        ensures
            message.delta_time == raw.time,
            message.event == decoded(raw.bytes@),
    {
        let midi_event = decode_midi_event(raw.bytes);
        Message { delta_time: raw.time as usize, event: midi_event }
    }

    /// Appends the event's bytes to `r_result` and hands them out as a raw
    /// message. The time is the low 32 bits of `delta_time`.
    pub fn encode_into<'a>(&self, r_result: &'a mut Vec<u8>) -> (raw: RawMessage<'a>)
        requires
            self.event.encodable(),
        ensures
            final(r_result)@ == old(r_result)@ + self.event.wire_bytes(),
            raw.bytes@ == final(r_result)@,
            raw.time == self.delta_time as u32,
            self.delta_time <= u32::MAX ==> raw.time == self.delta_time,
    {
        self.event.encode_into(r_result);
        RawMessage {
            time: #[verifier::truncate] (self.delta_time as u32),
            bytes: r_result.as_slice(),
        }
    }
}

} // verus!
