//! A device: a fixed set of voices, shared out among channels as notes are played.

use vstd::prelude::*;
use crate::channel::ChannelState;
use crate::chromatic::ChromaticNote;
use crate::device_laws::{
    lemma_all_notes_off_wf, lemma_fresh_wf, lemma_key_pressure_wf, lemma_note_off_wf,
    lemma_note_on_wf, lemma_position, lemma_voice_held_once,
};
use crate::device_model::{listed, DeviceModel};
use crate::event::{Channel, Event, Velocity};
use crate::note_state::{NoteState, NoteStateId};

verus! {

/// The voices of a device and who holds them.
///
/// A device is made with a fixed number of channels and of voices. Where it is
/// shared between threads, it is the one piece of state to guard: the thread that
/// applies events writes, a thread that shows the state reads.
#[derive(Debug)]
pub struct DeviceState {
    notes: Vec<NoteState>,
    channels: Vec<ChannelState>,
    unused_notes: Vec<NoteStateId>,
}

impl View for DeviceState {
    type V = DeviceModel;

    closed spec fn view(&self) -> DeviceModel {
        DeviceModel {
            notes: self.notes@,
            channels: Seq::new(self.channels@.len(), |c: int| self.channels@[c]@),
            free: self.unused_notes@,
        }
    }
}

impl DeviceState {
    /// The invariant of a device: that of what it holds.
    pub open spec fn wf(&self) -> bool {
        self@.wf()
    }

    /// Create a new midi device state with the given midi channels and polyphonic notes.
    ///
    /// All the memory that the device will use is reserved here: every list is
    /// given room for all the voices, so that applying an event never has to ask
    /// for more.
    pub fn new(num_channels: usize, num_polyphony_notes: usize) -> (device: DeviceState)
        ensures
            device@ == DeviceModel::fresh(num_channels as nat, num_polyphony_notes as nat),
            device.wf(),
    {
        let mut notes: Vec<NoteState> = Vec::with_capacity(num_polyphony_notes);
        let mut unused_notes: Vec<NoteStateId> = Vec::with_capacity(num_polyphony_notes);
        let mut id: usize = 0;
        while id < num_polyphony_notes
            invariant
                id <= num_polyphony_notes,
                notes@.len() == id,
                unused_notes@.len() == id,
                forall|i: int| 0 <= i < id ==> notes@[i] == NoteState::idle(),
                forall|i: int| 0 <= i < id ==> unused_notes@[i] == i,
            decreases num_polyphony_notes - id,
        {
            notes.push(NoteState::default());
            unused_notes.push(id);
            id += 1;
        }
        let mut channels: Vec<ChannelState> = Vec::with_capacity(num_channels);
        let mut channel: usize = 0;
        while channel < num_channels
            invariant
                channel <= num_channels,
                channels@.len() == channel,
                forall|c: int| 0 <= c < channel ==> channels@[c]@ == Seq::<NoteStateId>::empty(),
            decreases num_channels - channel,
        {
            channels.push(ChannelState { active_notes: Vec::with_capacity(num_polyphony_notes) });
            channel += 1;
        }
        let device = DeviceState { notes, channels, unused_notes };
        proof {
            lemma_fresh_wf(num_channels as nat, num_polyphony_notes as nat);
            assert(device@ =~~= DeviceModel::fresh(
                num_channels as nat,
                num_polyphony_notes as nat,
            ));
        }
        device
    }

    /// Tells whether the device can take the event, as `apply_event` asks.
    pub fn accepts(&self, event: &Event) -> (accepted: bool)
        ensures
            accepted == self@.accepts(*event),
    {
        match event {
            Event::AllNotesOff(channel_id) => self.has_channel(*channel_id),
            Event::NoteOn(channel_id, _, _) => self.has_channel(*channel_id),
            Event::NoteOff(channel_id, _, _) => self.has_channel(*channel_id),
            Event::KeyPressure(channel_id, _, _) => self.has_channel(*channel_id),
            _ => true,
        }
    }

    /// Tells whether the device has the channel.
    pub fn has_channel(&self, channel_id: Channel) -> (has: bool)
        ensures
            has == self@.addresses(channel_id),
    {
        channel_id >= 1 && channel_id as usize <= self.channels.len()
    }

    /// Return the number of voices of the device.
    pub fn polyphony(&self) -> (count: usize)
        ensures
            count == self@.notes.len(),
    {
        self.notes.len()
    }

    /// Apply the given midi event.
    ///
    /// A note on takes a free voice for its note, unless the note sounds on the
    /// channel already. Where no voice is free the note is dropped: no sounding
    /// voice is taken away for it. A note off or a key pressure for a note that
    /// does not sound changes nothing. Events other than note on, note off, key
    /// pressure and all notes off are let through unheeded.
    pub fn apply_event(&mut self, event: &Event)
        requires
            old(self).wf(),
            old(self)@.accepts(*event),
        ensures
            final(self)@ == old(self)@.apply(*event),
            final(self).wf(),
    {
        match event {
            Event::AllNotesOff(channel_id) => self.all_notes_off(*channel_id),
            Event::NoteOn(channel_id, note, velocity) => self.note_on(*channel_id, note, *velocity),
            Event::NoteOff(channel_id, note, velocity) => {
                self.note_off(*channel_id, note, *velocity)
            },
            Event::KeyPressure(channel_id, note, velocity) => {
                self.key_pressure(*channel_id, note, *velocity);
            },
            _ => {},
        }
    }

    /// Return the number of unused notes.
    ///
    /// A device has a specific polyphony. This method returns the number of polyphone notes
    /// that aren't linked to a channel.
    pub fn unused_notes_size(&self) -> (size: usize)
        ensures
            size == self@.free.len(),
    {
        self.unused_notes.len()
    }

    /// Return the number of channels of the device.
    pub fn num_channels(&self) -> (count: usize)
        ensures
            count == self@.channels.len(),
    {
        self.channels.len()
    }

    fn note_on(&mut self, channel_id: Channel, note: &ChromaticNote, velocity: Velocity)
        requires
            old(self).wf(),
            old(self)@.addresses(channel_id),
        ensures
            final(self)@ == old(self)@.note_on(channel_id, *note, velocity),
            final(self).wf(),
    {
        let found = self.find_note_id(channel_id, note);
        if found.is_none() {
            if let Some(note_id) = self.unused_notes.pop() {
                self.notes[note_id].on(channel_id, note, velocity);
                self.channels[(channel_id - 1) as usize].active_notes.push(note_id);
            }
        }
        proof {
            lemma_note_on_wf(old(self)@, channel_id, *note, velocity);
            assert(self@ =~~= old(self)@.note_on(channel_id, *note, velocity));
        }
    }

    fn note_off(&mut self, channel_id: Channel, note: &ChromaticNote, velocity: Velocity)
        requires
            old(self).wf(),
            old(self)@.addresses(channel_id),
        ensures
            final(self)@ == old(self)@.note_off(channel_id, *note, velocity),
            final(self).wf(),
    {
        if let Some((active_note_index, note_id)) = self.find_note_id(channel_id, note) {
            self.notes[note_id].off(velocity);
            self.channels[(channel_id - 1) as usize].active_notes.remove(active_note_index);
            self.unused_notes.push(note_id)
        }
        proof {
            lemma_note_off_wf(old(self)@, channel_id, *note, velocity);
            assert(self@ =~~= old(self)@.note_off(channel_id, *note, velocity));
        }
    }

    fn key_pressure(&mut self, channel_id: Channel, note: &ChromaticNote, velocity: Velocity)
        requires
            old(self).wf(),
            old(self)@.addresses(channel_id),
        ensures
            final(self)@ == old(self)@.key_pressure(channel_id, *note, velocity),
            final(self).wf(),
    {
        if let Some((_active_note_index, note_id)) = self.find_note_id(channel_id, note) {
            self.notes[note_id].key_pressure(velocity);
        }
        proof {
            lemma_key_pressure_wf(old(self)@, channel_id, *note, velocity);
            assert(self@ =~~= old(self)@.key_pressure(channel_id, *note, velocity));
        }
    }

    /// Looks for the voice of a channel that holds `note`: its place among the
    /// channel's voices, and the voice.
    fn find_note_id(&self, channel_id: Channel, note: &ChromaticNote) -> (found: Option<
        (usize, NoteStateId),
    >)
        requires
            self.wf(),
            self@.addresses(channel_id),
        ensures
            found is Some <==> self@.sounds(channel_id, *note),
            found matches Some((k, id)) ==> k == self@.position(channel_id, *note) && k
                < self@.active(channel_id).len() && id == self@.active(channel_id)[k as int] && id
                < self@.notes.len(),
    {
        let channel = &self.channels[(channel_id - 1) as usize];
        let mut index: usize = 0;
        while index < channel.active_notes.len()
            invariant
                self.wf(),
                self@.addresses(channel_id),
                channel@ == self@.active(channel_id),
                index <= channel@.len(),
                forall|k: int| 0 <= k < index ==> !self@.holds_at(channel_id, *note, k),
            decreases channel@.len() - index,
        {
            let note_id = channel.active_notes[index];
            assert(note_id == self@.channels[channel_id - 1][index as int]);
            if self.notes[note_id].note == *note {
                proof {
                    assert(self@.holds_at(channel_id, *note, index as int));
                    lemma_position(self@, channel_id, *note, index as int);
                }
                return Some((index, note_id));
            }
            index += 1;
        }
        None
    }

    fn all_notes_off(&mut self, channel_id: Channel)
        requires
            old(self).wf(),
            old(self)@.addresses(channel_id),
        ensures
            final(self)@ == old(self)@.all_notes_off(channel_id),
            final(self).wf(),
    {
        let count = self.channels[(channel_id - 1) as usize].active_notes.len();
        let ghost stopped = self@.active(channel_id);
        let mut index: usize = 0;
        while index < count
            invariant
                old(self).wf(),
                old(self)@.addresses(channel_id),
                stopped == old(self)@.active(channel_id),
                count == stopped.len(),
                index <= count,
                self@.channels == old(self)@.channels,
                self@.notes.len() == old(self)@.notes.len(),
                self@.free == old(self)@.free + stopped.take(index as int),
                forall|i: int|
                    0 <= i < self@.notes.len() ==> #[trigger] self@.notes[i] == if listed(
                        stopped.take(index as int),
                        i,
                    ) {
                        old(self)@.notes[i].released(0)
                    } else {
                        old(self)@.notes[i]
                    },
            decreases count - index,
        {
            let note_id = self.channels[(channel_id - 1) as usize].active_notes[index];
            assert(note_id == old(self)@.channels[channel_id - 1][index as int]);
            let ghost entered = self@;
            self.notes[note_id].off(0);
            self.unused_notes.push(note_id);
            proof {
                let before = stopped.take(index as int);
                let after = stopped.take(index + 1);
                assert(after =~= before.push(note_id));
                assert(self@.free =~= old(self)@.free + after);
                assert(self@.notes =~= entered.notes.update(
                    note_id as int,
                    entered.notes[note_id as int].released(0),
                ));
                assert(!listed(before, note_id as int)) by {
                    if listed(before, note_id as int) {
                        let k = choose|k: int| 0 <= k < before.len() && before[k] == note_id;
                        lemma_voice_held_once(
                            old(self)@,
                            channel_id - 1,
                            k,
                            channel_id - 1,
                            index as int,
                        );
                    }
                }
                assert forall|i: int| 0 <= i < self@.notes.len() implies #[trigger] self@.notes[i]
                    == if listed(after, i) {
                    old(self)@.notes[i].released(0)
                } else {
                    old(self)@.notes[i]
                } by {
                    assert(after[index as int] == note_id);
                    assert(entered.notes[i] == if listed(before, i) {
                        old(self)@.notes[i].released(0)
                    } else {
                        old(self)@.notes[i]
                    });
                    if i != note_id {
                        if listed(after, i) {
                            let k = choose|k: int| 0 <= k < after.len() && after[k] == i;
                            assert(before[k] == i);
                        } else if listed(before, i) {
                            let k = choose|k: int| 0 <= k < before.len() && before[k] == i;
                            assert(after[k] == i);
                        }
                    }
                }
            }
            index += 1;
        }
        self.channels[(channel_id - 1) as usize].active_notes.clear();
        proof {
            assert(stopped.take(count as int) =~= stopped);
            lemma_all_notes_off_wf(old(self)@, channel_id);
            assert(self@ =~~= old(self)@.all_notes_off(channel_id));
        }
    }

    /// The voice with the given index.
    pub fn note_by_note_index(&self, id: NoteStateId) -> (state: &'_ NoteState)
        requires
            id < self@.notes.len(),
        ensures
            *state == self@.notes[id as int],
    {
        &self.notes[id]
    }

    /// The state of the channel with the given number.
    pub fn index(&self, channel_id: Channel) -> (state: &ChannelState)
        requires
            self@.addresses(channel_id),
        ensures
            state@ == self@.active(channel_id),
    {
        &self.channels[(channel_id - 1) as usize]
    }
}

} // verus!
