//! The voices of a device as plain sequences, and what each event does to them.

use vstd::prelude::*;
use crate::chromatic::ChromaticNote;
use crate::event::{Channel, Event, Velocity};
use crate::note_state::{NoteState, NoteStateId};

verus! {

#[verifier::ext_equal]
/// What a device holds: its voices, for each channel the voices that sound on it,
/// the one taken first at the front, and the stack of free voices, its top last.
pub struct DeviceModel {
    pub notes: Seq<NoteState>,
    pub channels: Seq<Seq<NoteStateId>>,
    pub free: Seq<NoteStateId>,
}

/// The number of voices in all the lists together.
pub open spec fn total_len(lists: Seq<Seq<NoteStateId>>) -> nat
    decreases lists.len(),
{
    if lists.len() == 0 {
        0
    } else {
        total_len(lists.drop_last()) + lists.last().len()
    }
}

/// Whether the voice with index `voice` is in the list.
pub open spec fn listed(list: Seq<NoteStateId>, voice: int) -> bool {
    exists|k: int| 0 <= k < list.len() && #[trigger] list[k] == voice
}

impl DeviceModel {
    /// A device on which nothing has sounded yet. The voices are free, the highest
    /// on top of the stack.
    pub open spec fn fresh(num_channels: nat, polyphony: nat) -> DeviceModel {
        DeviceModel {
            notes: Seq::new(polyphony, |i: int| NoteState::idle()),
            channels: Seq::new(num_channels, |c: int| Seq::<NoteStateId>::empty()),
            free: Seq::new(polyphony, |i: int| i as NoteStateId),
        }
    }

    /// Whether the device has the channel. Channels count from 1.
    pub open spec fn addresses(self, channel: Channel) -> bool {
        1 <= channel <= self.channels.len()
    }

    /// The voices that sound on a channel.
    pub open spec fn active(self, channel: Channel) -> Seq<NoteStateId> {
        self.channels[channel - 1]
    }

    /// The note of the `k`-th voice that sounds on a channel.
    pub open spec fn note_at(self, channel: Channel, k: int) -> ChromaticNote {
        self.notes[self.active(channel)[k] as int].note
    }

    /// Whether the `k`-th voice that sounds on the channel holds `note`.
    pub open spec fn holds_at(self, channel: Channel, note: ChromaticNote, k: int) -> bool {
        0 <= k < self.active(channel).len() && self.note_at(channel, k) == note
    }

    /// Whether `note` sounds on the channel.
    pub open spec fn sounds(self, channel: Channel, note: ChromaticNote) -> bool {
        exists|k: int| self.holds_at(channel, note, k)
    }

    /// Where among the channel's voices `note` sounds. In a well-formed device
    /// there is at most one such place.
    pub open spec fn position(self, channel: Channel, note: ChromaticNote) -> int {
        choose|k: int| self.holds_at(channel, note, k)
    }

    /// The number of voices that sound, over all channels.
    pub open spec fn active_total(self) -> nat {
        total_len(self.channels)
    }

    /// The invariant of a device. Every voice on the free stack is free, and none
    /// is there twice. Every voice in a channel's list is held by that channel, and
    /// no two voices of a channel hold the same note. The free voices and the
    /// sounding voices together are as many as the device has.
    pub open spec fn wf(self) -> bool {
        &&& forall|j: int|
            0 <= j < self.free.len() ==> (#[trigger] self.free[j]) < self.notes.len()
                && self.notes[self.free[j] as int].channel_id is None
        &&& forall|i: int, j: int|
            0 <= i < j < self.free.len() ==> #[trigger] self.free[i] != #[trigger] self.free[j]
        &&& forall|c: int, k: int|
            0 <= c < self.channels.len() && 0 <= k < self.channels[c].len() ==> {
                &&& (#[trigger] self.channels[c][k]) < self.notes.len()
                &&& c + 1 <= Channel::MAX
                &&& self.notes[self.channels[c][k] as int].channel_id == Some((c + 1) as Channel)
            }
        &&& forall|c: int, i: int, j: int|
            0 <= c < self.channels.len() && 0 <= i < j < self.channels[c].len()
                ==> self.notes[(#[trigger] self.channels[c][i]) as int].note
                != self.notes[(#[trigger] self.channels[c][j]) as int].note
        &&& self.free.len() + self.active_total() == self.notes.len()
    }

    /// Whether the device can take the event: an event that starts, stops or
    /// presses on notes has to name a channel of the device.
    pub open spec fn accepts(self, event: Event) -> bool {
        match event {
            Event::NoteOn(c, _, _) => self.addresses(c),
            Event::NoteOff(c, _, _) => self.addresses(c),
            Event::KeyPressure(c, _, _) => self.addresses(c),
            Event::AllNotesOff(c) => self.addresses(c),
            _ => true,
        }
    }

    /// A note is started. Where it sounds on the channel already, or no voice is
    /// free, nothing changes. Else the voice on top of the free stack takes the
    /// note and joins the channel's voices at the back.
    pub open spec fn note_on(
        self,
        channel: Channel,
        note: ChromaticNote,
        velocity: Velocity,
    ) -> DeviceModel {
        if self.sounds(channel, note) || self.free.len() == 0 {
            self
        } else {
            let slot = self.free.last();
            DeviceModel {
                notes: self.notes.update(
                    slot as int,
                    NoteState { channel_id: Some(channel), note, velocity },
                ),
                channels: self.channels.update(channel - 1, self.active(channel).push(slot)),
                free: self.free.drop_last(),
            }
        }
    }

    /// A note is stopped. Where it does not sound on the channel, nothing changes.
    /// Else its voice is released with the velocity, leaves the channel's voices
    /// and goes on top of the free stack.
    pub open spec fn note_off(
        self,
        channel: Channel,
        note: ChromaticNote,
        velocity: Velocity,
    ) -> DeviceModel {
        if !self.sounds(channel, note) {
            self
        } else {
            let k = self.position(channel, note);
            let slot = self.active(channel)[k];
            DeviceModel {
                notes: self.notes.update(slot as int, self.notes[slot as int].released(velocity)),
                channels: self.channels.update(channel - 1, self.active(channel).remove(k)),
                free: self.free.push(slot),
            }
        }
    }

    /// The pressure on a note changes. Where the note does not sound on the
    /// channel, nothing changes. Else its voice takes the velocity.
    pub open spec fn key_pressure(
        self,
        channel: Channel,
        note: ChromaticNote,
        velocity: Velocity,
    ) -> DeviceModel {
        if !self.sounds(channel, note) {
            self
        } else {
            let slot = self.active(channel)[self.position(channel, note)];
            DeviceModel {
                notes: self.notes.update(slot as int, self.notes[slot as int].pressed(velocity)),
                channels: self.channels,
                free: self.free,
            }
        }
    }

    /// All notes of a channel are stopped. Its voices are released with velocity
    /// 0 and go on the free stack, the one taken first lowest.
    pub open spec fn all_notes_off(self, channel: Channel) -> DeviceModel {
        let stopped = self.active(channel);
        DeviceModel {
            notes: Seq::new(
                self.notes.len(),
                |i: int|
                    if listed(stopped, i) {
                        self.notes[i].released(0)
                    } else {
                        self.notes[i]
                    },
            ),
            channels: self.channels.update(channel - 1, Seq::empty()),
            free: self.free + stopped,
        }
    }

    /// The device after an event. Events other than note on, note off, key
    /// pressure and all notes off leave it as it is.
    pub open spec fn apply(self, event: Event) -> DeviceModel {
        match event {
            Event::AllNotesOff(channel) => self.all_notes_off(channel),
            Event::NoteOn(channel, note, velocity) => self.note_on(channel, note, velocity),
            Event::NoteOff(channel, note, velocity) => self.note_off(channel, note, velocity),
            Event::KeyPressure(channel, note, velocity) => self.key_pressure(
                channel,
                note,
                velocity,
            ),
            _ => self,
        }
    }

    /// The device after a sequence of events, the first applied first.
    pub open spec fn apply_all(self, events: Seq<Event>) -> DeviceModel
        decreases events.len(),
    {
        if events.len() == 0 {
            self
        } else {
            self.apply_all(events.drop_last()).apply(events.last())
        }
    }
}

/// Replacing one list changes the total by the difference of the lengths.
pub proof fn lemma_total_len_update(
    lists: Seq<Seq<NoteStateId>>,
    c: int,
    list: Seq<NoteStateId>,
)
    requires
        0 <= c < lists.len(),
    ensures
        total_len(lists.update(c, list)) == total_len(lists) - lists[c].len() + list.len(),
        lists[c].len() <= total_len(lists),
    decreases lists.len(),
{
    let updated = lists.update(c, list);
    if c == lists.len() - 1 {
        assert(updated.drop_last() =~= lists.drop_last());
    } else {
        assert(updated.drop_last() =~= lists.drop_last().update(c, list));
        lemma_total_len_update(lists.drop_last(), c, list);
    }
}

/// Lists that are all empty hold nothing.
pub proof fn lemma_total_len_empty(lists: Seq<Seq<NoteStateId>>)
    requires
        forall|c: int| 0 <= c < lists.len() ==> (#[trigger] lists[c]).len() == 0,
    ensures
        total_len(lists) == 0,
    decreases lists.len(),
{
    if lists.len() > 0 {
        lemma_total_len_empty(lists.drop_last());
    }
}

} // verus!
