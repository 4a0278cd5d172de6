//! What holds of a device whatever events it is given.

use vstd::prelude::*;
use crate::chromatic::ChromaticNote;
use crate::device_model::{
    lemma_total_len_empty, lemma_total_len_update, listed, DeviceModel,
};
use crate::event::{Channel, Event, Velocity};

verus! {

/// A device on which nothing has sounded yet is well-formed.
pub proof fn lemma_fresh_wf(num_channels: nat, polyphony: nat)
    requires
        polyphony <= usize::MAX,
    ensures
        DeviceModel::fresh(num_channels, polyphony).wf(),
        DeviceModel::fresh(num_channels, polyphony).active_total() == 0,
{
    let s = DeviceModel::fresh(num_channels, polyphony);
    lemma_total_len_empty(s.channels);
}

/// In a well-formed device a note sounds at one place of a channel at most.
pub proof fn lemma_position(s: DeviceModel, channel: Channel, note: ChromaticNote, k: int)
    requires
        s.wf(),
        s.addresses(channel),
        s.holds_at(channel, note, k),
    ensures
        s.sounds(channel, note),
        s.position(channel, note) == k,
{
    let p = s.position(channel, note);
    assert(s.holds_at(channel, note, p));
    let c = channel - 1;
    if p < k {
        assert(s.notes[s.channels[c][p] as int].note
            != s.notes[s.channels[c][k] as int].note);
    } else if k < p {
        assert(s.notes[s.channels[c][k] as int].note
            != s.notes[s.channels[c][p] as int].note);
    }
}

/// Starting a note keeps a device well-formed.
pub proof fn lemma_note_on_wf(
    s: DeviceModel,
    channel: Channel,
    note: ChromaticNote,
    velocity: Velocity,
)
    requires
        s.wf(),
        s.addresses(channel),
    ensures
        s.note_on(channel, note, velocity).wf(),
{
    let t = s.note_on(channel, note, velocity);
    if !(s.sounds(channel, note) || s.free.len() == 0) {
        let c = channel - 1;
        let top = s.free.len() - 1;
        let slot = s.free[top];
        lemma_total_len_update(s.channels, c, s.active(channel).push(slot));
        assert forall|j: int| 0 <= j < t.free.len() implies (#[trigger] t.free[j]) < t.notes.len()
            && t.notes[t.free[j] as int].channel_id is None by {
            assert(t.free[j] == s.free[j]);
            assert(s.free[j] != s.free[top]);
        }
        assert forall|i: int, j: int| 0 <= i < j < t.free.len() implies #[trigger] t.free[i]
            != #[trigger] t.free[j] by {
            assert(t.free[i] == s.free[i] && t.free[j] == s.free[j]);
        }
        assert forall|d: int, k: int|
            0 <= d < t.channels.len() && 0 <= k < t.channels[d].len() implies {
            &&& (#[trigger] t.channels[d][k]) < t.notes.len()
            &&& d + 1 <= Channel::MAX
            &&& t.notes[t.channels[d][k] as int].channel_id == Some((d + 1) as Channel)
        } by {
            if d == c && k == s.channels[c].len() {
            } else {
                assert(t.channels[d][k] == s.channels[d][k]);
                assert(s.notes[s.channels[d][k] as int].channel_id is Some);
            }
        }
        assert forall|d: int, i: int, j: int|
            0 <= d < t.channels.len() && 0 <= i < j < t.channels[d].len() implies
            t.notes[(#[trigger] t.channels[d][i]) as int].note
                != t.notes[(#[trigger] t.channels[d][j]) as int].note by {
            assert(t.channels[d][i] == s.channels[d][i]);
            assert(s.notes[s.channels[d][i] as int].channel_id is Some);
            if d == c && j == s.channels[c].len() {
                assert(!s.holds_at(channel, note, i));
            } else {
                assert(t.channels[d][j] == s.channels[d][j]);
                assert(s.notes[s.channels[d][j] as int].channel_id is Some);
            }
        }
    }
}

/// Stopping a note keeps a device well-formed.
pub proof fn lemma_note_off_wf(
    s: DeviceModel,
    channel: Channel,
    note: ChromaticNote,
    velocity: Velocity,
)
    requires
        s.wf(),
        s.addresses(channel),
    ensures
        s.note_off(channel, note, velocity).wf(),
{
    let t = s.note_off(channel, note, velocity);
    if s.sounds(channel, note) {
        let c = channel - 1;
        let p = s.position(channel, note);
        assert(s.holds_at(channel, note, p));
        let slot = s.channels[c][p];
        assert(s.notes[slot as int].channel_id is Some);
        lemma_total_len_update(s.channels, c, s.active(channel).remove(p));
        assert forall|j: int| 0 <= j < t.free.len() implies (#[trigger] t.free[j]) < t.notes.len()
            && t.notes[t.free[j] as int].channel_id is None by {
            if j < s.free.len() {
                assert(t.free[j] == s.free[j]);
            }
        }
        assert forall|i: int, j: int| 0 <= i < j < t.free.len() implies #[trigger] t.free[i]
            != #[trigger] t.free[j] by {
            assert(t.free[i] == s.free[i]);
            if j < s.free.len() {
                assert(t.free[j] == s.free[j]);
            }
        }
        assert forall|d: int, k: int|
            0 <= d < t.channels.len() && 0 <= k < t.channels[d].len() implies {
            &&& (#[trigger] t.channels[d][k]) < t.notes.len()
            &&& d + 1 <= Channel::MAX
            &&& t.notes[t.channels[d][k] as int].channel_id == Some((d + 1) as Channel)
        } by {
            if d == c {
                let k0 = if k < p {
                    k
                } else {
                    k + 1
                };
                assert(t.channels[d][k] == s.channels[c][k0]);
                if k0 < p {
                    assert(s.notes[s.channels[c][k0] as int].note
                        != s.notes[s.channels[c][p] as int].note);
                } else {
                    assert(s.notes[s.channels[c][p] as int].note
                        != s.notes[s.channels[c][k0] as int].note);
                }
            } else {
                assert(t.channels[d][k] == s.channels[d][k]);
                assert(s.notes[s.channels[d][k] as int].channel_id == Some((d + 1) as Channel));
            }
        }
        assert forall|d: int, i: int, j: int|
            0 <= d < t.channels.len() && 0 <= i < j < t.channels[d].len() implies
            t.notes[(#[trigger] t.channels[d][i]) as int].note
                != t.notes[(#[trigger] t.channels[d][j]) as int].note by {
            assert(t.notes[t.channels[d][i] as int].channel_id == Some((d + 1) as Channel));
            assert(t.notes[t.channels[d][j] as int].channel_id == Some((d + 1) as Channel));
            if d == c {
                let i0 = if i < p {
                    i
                } else {
                    i + 1
                };
                let j0 = if j < p {
                    j
                } else {
                    j + 1
                };
                assert(t.channels[d][i] == s.channels[c][i0]);
                assert(t.channels[d][j] == s.channels[c][j0]);
                assert(s.notes[s.channels[c][i0] as int].note
                    != s.notes[s.channels[c][j0] as int].note);
            } else {
                assert(t.channels[d][i] == s.channels[d][i]);
                assert(t.channels[d][j] == s.channels[d][j]);
            }
        }
    }
}

/// A change of pressure keeps a device well-formed.
pub proof fn lemma_key_pressure_wf(
    s: DeviceModel,
    channel: Channel,
    note: ChromaticNote,
    velocity: Velocity,
)
    requires
        s.wf(),
        s.addresses(channel),
    ensures
        s.key_pressure(channel, note, velocity).wf(),
{
    let t = s.key_pressure(channel, note, velocity);
    if s.sounds(channel, note) {
        let p = s.position(channel, note);
        assert(s.holds_at(channel, note, p));
        let slot = s.channels[channel - 1][p];
        assert forall|j: int| 0 <= j < t.free.len() implies (#[trigger] t.free[j]) < t.notes.len()
            && t.notes[t.free[j] as int].channel_id is None by {
            assert(t.free[j] == s.free[j]);
        }
        assert forall|d: int, k: int|
            0 <= d < t.channels.len() && 0 <= k < t.channels[d].len() implies {
            &&& (#[trigger] t.channels[d][k]) < t.notes.len()
            &&& d + 1 <= Channel::MAX
            &&& t.notes[t.channels[d][k] as int].channel_id == Some((d + 1) as Channel)
        } by {
            assert(t.channels[d][k] == s.channels[d][k]);
        }
        assert forall|d: int, i: int, j: int|
            0 <= d < t.channels.len() && 0 <= i < j < t.channels[d].len() implies
            t.notes[(#[trigger] t.channels[d][i]) as int].note
                != t.notes[(#[trigger] t.channels[d][j]) as int].note by {
            assert(t.channels[d][i] == s.channels[d][i]);
            assert(t.channels[d][j] == s.channels[d][j]);
        }
    }
}

/// Stopping all notes of a channel keeps a device well-formed.
pub proof fn lemma_all_notes_off_wf(s: DeviceModel, channel: Channel)
    requires
        s.wf(),
        s.addresses(channel),
    ensures
        s.all_notes_off(channel).wf(),
{
    let t = s.all_notes_off(channel);
    let c = channel - 1;
    let stopped = s.channels[c];
    lemma_total_len_update(s.channels, c, Seq::empty());
    assert forall|j: int| 0 <= j < t.free.len() implies (#[trigger] t.free[j]) < t.notes.len()
        && t.notes[t.free[j] as int].channel_id is None by {
        if j < s.free.len() {
            assert(t.free[j] == s.free[j]);
        } else {
            assert(t.free[j] == stopped[j - s.free.len()]);
            assert(listed(stopped, t.free[j] as int));
        }
    }
    assert forall|i: int, j: int| 0 <= i < j < t.free.len() implies #[trigger] t.free[i]
        != #[trigger] t.free[j] by {
        if j < s.free.len() {
            assert(t.free[i] == s.free[i] && t.free[j] == s.free[j]);
        } else if i < s.free.len() {
            assert(t.free[i] == s.free[i]);
            assert(t.free[j] == s.channels[c][j - s.free.len()]);
            assert(s.notes[t.free[j] as int].channel_id is Some);
        } else {
            let i0 = i - s.free.len();
            let j0 = j - s.free.len();
            assert(t.free[i] == s.channels[c][i0]);
            assert(t.free[j] == s.channels[c][j0]);
            assert(s.notes[s.channels[c][i0] as int].note
                != s.notes[s.channels[c][j0] as int].note);
        }
    }
    assert forall|d: int, k: int|
        0 <= d < t.channels.len() && 0 <= k < t.channels[d].len() implies {
        &&& (#[trigger] t.channels[d][k]) < t.notes.len()
        &&& d + 1 <= Channel::MAX
        &&& t.notes[t.channels[d][k] as int].channel_id == Some((d + 1) as Channel)
    } by {
        assert(d != c);
        assert(t.channels[d][k] == s.channels[d][k]);
        lemma_held_elsewhere(s, c, d, k);
    }
    assert forall|d: int, i: int, j: int|
        0 <= d < t.channels.len() && 0 <= i < j < t.channels[d].len() implies
        t.notes[(#[trigger] t.channels[d][i]) as int].note
            != t.notes[(#[trigger] t.channels[d][j]) as int].note by {
        assert(t.channels[d][i] == s.channels[d][i]);
        assert(t.channels[d][j] == s.channels[d][j]);
        lemma_held_elsewhere(s, c, d, i);
        lemma_held_elsewhere(s, c, d, j);
    }
}

/// A voice that sounds on one channel is in no other channel's list.
proof fn lemma_held_elsewhere(s: DeviceModel, c: int, d: int, k: int)
    requires
        s.wf(),
        0 <= c < s.channels.len(),
        0 <= d < s.channels.len(),
        c != d,
        0 <= k < s.channels[d].len(),
    ensures
        !listed(s.channels[c], s.channels[d][k] as int),
{
    if listed(s.channels[c], s.channels[d][k] as int) {
        let i = choose|i: int| 0 <= i < s.channels[c].len() && s.channels[c][i] == s.channels[d][k];
        lemma_voice_held_once(s, c, i, d, k);
    }
}

/// An event that a well-formed device accepts leaves it well-formed, with the
/// voices and channels it had.
pub proof fn lemma_apply_wf(s: DeviceModel, event: Event)
    requires
        s.wf(),
        s.accepts(event),
    ensures
        s.apply(event).wf(),
        s.apply(event).notes.len() == s.notes.len(),
        s.apply(event).channels.len() == s.channels.len(),
{
    match event {
        Event::AllNotesOff(channel) => lemma_all_notes_off_wf(s, channel),
        Event::NoteOn(channel, note, velocity) => lemma_note_on_wf(s, channel, note, velocity),
        Event::NoteOff(channel, note, velocity) => lemma_note_off_wf(s, channel, note, velocity),
        Event::KeyPressure(channel, note, velocity) => lemma_key_pressure_wf(
            s,
            channel,
            note,
            velocity,
        ),
        _ => {},
    }
}

/// Whether a device accepts each of the events.
pub open spec fn accepts_all(s: DeviceModel, events: Seq<Event>) -> bool {
    forall|i: int| 0 <= i < events.len() ==> s.accepts(#[trigger] events[i])
}

/// A sequence of events that a well-formed device accepts leaves it well-formed,
/// with the voices and channels it had.
pub proof fn lemma_apply_all_wf(s: DeviceModel, events: Seq<Event>)
    requires
        s.wf(),
        accepts_all(s, events),
    ensures
        s.apply_all(events).wf(),
        s.apply_all(events).notes.len() == s.notes.len(),
        s.apply_all(events).channels.len() == s.channels.len(),
    decreases events.len(),
{
    if events.len() > 0 {
        let before = events.drop_last();
        assert forall|i: int| 0 <= i < before.len() implies s.accepts(#[trigger] before[i]) by {
            assert(before[i] == events[i]);
        }
        lemma_apply_all_wf(s, before);
        assert(s.accepts(events[events.len() - 1]));
        lemma_apply_wf(s.apply_all(before), events.last());
    }
}

/// Polyphony is conserved: after each event of a sequence, the free voices and
/// the sounding voices together are as many as the device has.
pub proof fn lemma_polyphony_conserved(s: DeviceModel, events: Seq<Event>)
    requires
        s.wf(),
        accepts_all(s, events),
    ensures
        forall|n: int|
            0 <= n <= events.len() ==> (#[trigger] s.apply_all(events.take(n))).free.len()
                + s.apply_all(events.take(n)).active_total() == s.notes.len(),
{
    assert forall|n: int| 0 <= n <= events.len() implies (#[trigger] s.apply_all(
        events.take(n),
    )).free.len() + s.apply_all(events.take(n)).active_total() == s.notes.len() by {
        let prefix = events.take(n);
        assert forall|i: int| 0 <= i < prefix.len() implies s.accepts(#[trigger] prefix[i]) by {
            assert(prefix[i] == events[i]);
        }
        lemma_apply_all_wf(s, prefix);
    }
}

/// No voice is held twice: in a well-formed device the voices at two places of
/// the channels' lists are two voices.
pub proof fn lemma_voice_held_once(s: DeviceModel, c: int, i: int, d: int, j: int)
    requires
        s.wf(),
        0 <= c < s.channels.len(),
        0 <= i < s.channels[c].len(),
        0 <= d < s.channels.len(),
        0 <= j < s.channels[d].len(),
        c != d || i != j,
    ensures
        s.channels[c][i] != s.channels[d][j],
{
    assert(s.notes[s.channels[c][i] as int].channel_id == Some((c + 1) as Channel));
    assert(s.notes[s.channels[d][j] as int].channel_id == Some((d + 1) as Channel));
    if c == d {
        if i < j {
            assert(s.notes[s.channels[c][i] as int].note
                != s.notes[s.channels[c][j] as int].note);
        } else {
            assert(s.notes[s.channels[c][j] as int].note
                != s.notes[s.channels[c][i] as int].note);
        }
    }
}

/// In a well-formed device a voice that sounds is not on the free stack.
pub proof fn lemma_sounding_voice_not_free(s: DeviceModel, c: int, i: int)
    requires
        s.wf(),
        0 <= c < s.channels.len(),
        0 <= i < s.channels[c].len(),
    ensures
        !s.free.contains(s.channels[c][i]),
{
    assert(s.notes[s.channels[c][i] as int].channel_id == Some((c + 1) as Channel));
    if s.free.contains(s.channels[c][i]) {
        let k = choose|k: int| 0 <= k < s.free.len() && s.free[k] == s.channels[c][i];
        assert(s.notes[s.free[k] as int].channel_id is None);
    }
}

/// No duplicate voices: after any sequence of events, no two voices of a channel
/// hold the same note.
pub proof fn lemma_no_duplicate_voices(
    s: DeviceModel,
    events: Seq<Event>,
    channel: Channel,
    i: int,
    j: int,
)
    requires
        s.wf(),
        accepts_all(s, events),
        s.addresses(channel),
        0 <= i < j < s.apply_all(events).active(channel).len(),
    ensures
        s.apply_all(events).note_at(channel, i) != s.apply_all(events).note_at(channel, j),
{
    lemma_apply_all_wf(s, events);
    let t = s.apply_all(events);
    let c = channel - 1;
    assert(t.notes[t.channels[c][i] as int].note != t.notes[t.channels[c][j] as int].note);
}

/// Note off is idle where the note does not sound: the device stays as it is.
pub proof fn lemma_note_off_idle(
    s: DeviceModel,
    channel: Channel,
    note: ChromaticNote,
    velocity: Velocity,
)
    requires
        !s.sounds(channel, note),
    ensures
        s.apply(Event::NoteOff(channel, note, velocity)) == s,
{
}

/// Whether the events are note-on events on one channel, no two for the same
/// note.
pub open spec fn distinct_note_ons(events: Seq<Event>, channel: Channel) -> bool {
    &&& forall|i: int|
        0 <= i < events.len() ==> (#[trigger] events[i]) is NoteOn && events[i].channel_spec()
            == Some(channel)
    &&& forall|i: int, j: int|
        0 <= i < j < events.len() ==> (#[trigger] events[i]).note_spec()
            != (#[trigger] events[j]).note_spec()
}

/// While voices are left, each new note takes one: after the first `n` of the
/// events, `n` voices sound on the channel, in the order of the events, and the
/// others are free.
proof fn lemma_fill(
    num_channels: nat,
    polyphony: nat,
    channel: Channel,
    events: Seq<Event>,
    n: int,
)
    requires
        polyphony <= usize::MAX,
        1 <= channel <= num_channels,
        distinct_note_ons(events, channel),
        0 <= n <= events.len(),
        n <= polyphony,
    ensures
        ({
            let t = DeviceModel::fresh(num_channels, polyphony).apply_all(events.take(n));
            &&& t.wf()
            &&& t.notes.len() == polyphony
            &&& t.channels.len() == num_channels
            &&& t.free.len() == polyphony - n
            &&& t.active(channel).len() == n
            &&& forall|k: int|
                0 <= k < n ==> Some(#[trigger] t.note_at(channel, k)) == events[k].note_spec()
        }),
    decreases n,
{
    let s = DeviceModel::fresh(num_channels, polyphony);
    if n == 0 {
        lemma_fresh_wf(num_channels, polyphony);
        assert(s.apply_all(events.take(0)) == s);
    } else {
        lemma_fill(num_channels, polyphony, channel, events, n - 1);
        let before = s.apply_all(events.take(n - 1));
        assert(events.take(n).drop_last() =~= events.take(n - 1));
        let event = events[n - 1];
        assert(events.take(n).last() == event);
        let t = before.apply(event);
        assert(t == s.apply_all(events.take(n)));
        lemma_apply_wf(before, event);
        let note = event.note_spec()->0;
        assert(!before.sounds(channel, note)) by {
            if before.sounds(channel, note) {
                let k = choose|k: int| before.holds_at(channel, note, k);
                assert(Some(before.note_at(channel, k)) == events[k].note_spec());
                assert(events[k].note_spec() != events[n - 1].note_spec());
            }
        }
        assert forall|k: int| 0 <= k < n implies Some(#[trigger] t.note_at(channel, k))
            == events[k].note_spec() by {
            if k < n - 1 {
                assert(Some(before.note_at(channel, k)) == events[k].note_spec());
                lemma_sounding_voice_not_free(before, channel - 1, k);
                assert(before.free.contains(before.free.last()));
            }
        }
    }
}

/// Exhaustion is safe: on a device with `polyphony` voices on which nothing
/// sounds, `polyphony + 1` note-on events for different notes on one channel
/// leave `polyphony` voices sounding on that channel and none free. The last
/// event is dropped: the device is as it was before it.
pub proof fn lemma_exhaustion(
    num_channels: nat,
    polyphony: nat,
    channel: Channel,
    events: Seq<Event>,
)
    requires
        polyphony <= usize::MAX,
        1 <= channel <= num_channels,
        distinct_note_ons(events, channel),
        events.len() == polyphony + 1,
    ensures
        ({
            let s = DeviceModel::fresh(num_channels, polyphony);
            &&& s.apply_all(events).wf()
            &&& s.apply_all(events).active(channel).len() == polyphony
            &&& s.apply_all(events).active_total() == polyphony
            &&& s.apply_all(events).free.len() == 0
            &&& s.apply_all(events) == s.apply_all(events.drop_last())
        }),
{
    let s = DeviceModel::fresh(num_channels, polyphony);
    lemma_fill(num_channels, polyphony, channel, events, polyphony as int);
    assert(events.take(polyphony as int) =~= events.drop_last());
    let full = s.apply_all(events.drop_last());
    assert(s.apply_all(events) == full.apply(events.last()));
    assert(full.free.len() == 0);
}

} // verus!
