//! The keys of a piano: which are white, and how the black keys group between them.

use vstd::prelude::*;
use crate::chromatic::{note_of_value, note_value, ChromaticNote};
use crate::note::Note;
use crate::tone::ChromaticTone;

verus! {

/// Whether the key of a tone is a white key.
pub open spec fn white_tone(tone: ChromaticTone) -> bool {
    tone is A || tone is B || tone is C || tone is D || tone is E || tone is F || tone is G
}

/// Whether the key of a tone is a white key with a black key to its right.
pub open spec fn before_black_tone(tone: ChromaticTone) -> bool {
    tone is A || tone is C || tone is D || tone is F || tone is G
}

/// A key has a black key to its right where it is white and the next semitone is
/// not.
pub proof fn lemma_before_black(note: ChromaticNote)
    ensures
        before_black_tone(note.tone) <==> white_tone(note.tone) && !white_tone(
            note_of_value(note_value(note) + 1).tone,
        ),
        before_black_tone(note.tone) ==> note_of_value(note_value(note) + 1).octave == note.octave,
{
    let v = note_value(note);
    let i = note.tone.index_spec();
    assert(v % 12 == i && v / 12 == note.octave as int) by (nonlinear_arith)
        requires
            v == note.octave * 12 + i,
            0 <= i < 12,
    ;
    if i < 11 {
        assert((v + 1) % 12 == i + 1 && (v + 1) / 12 == note.octave as int) by (nonlinear_arith)
            requires
                v == note.octave * 12 + i,
                0 <= i < 11,
        ;
    }
}

/// What a note is as a key of a piano.
pub trait PianoKey {
    spec fn white(&self) -> bool;

    spec fn before_black(&self) -> bool;

    /// Is the given piano key a white key.
    fn is_white_key(&self) -> (white: bool)
        ensures
            white == self.white(),
    ;

    /// Will the given piano key be followed by a black key.
    fn is_followed_by_black_key(&self) -> (followed: bool)
        ensures
            followed == self.before_black(),
    ;
}

impl PianoKey for Note<ChromaticTone> {
    open spec fn white(&self) -> bool {
        white_tone(self.tone)
    }

    open spec fn before_black(&self) -> bool {
        before_black_tone(self.tone)
    }

    fn is_white_key(&self) -> (white: bool) {
        match self.tone {
            ChromaticTone::A
            | ChromaticTone::B
            | ChromaticTone::C
            | ChromaticTone::D
            | ChromaticTone::E
            | ChromaticTone::F
            | ChromaticTone::G => true,
            ChromaticTone::ASharp
            | ChromaticTone::CSharp
            | ChromaticTone::DSharp
            | ChromaticTone::FSharp
            | ChromaticTone::GSharp => false,
        }
    }

    fn is_followed_by_black_key(&self) -> (followed: bool) {
        match self.tone {
            ChromaticTone::A
            | ChromaticTone::C
            | ChromaticTone::D
            | ChromaticTone::F
            | ChromaticTone::G => true,
            ChromaticTone::E
            | ChromaticTone::B
            | ChromaticTone::ASharp
            | ChromaticTone::CSharp
            | ChromaticTone::DSharp
            | ChromaticTone::FSharp
            | ChromaticTone::GSharp => false,
        }
    }
}

/// The notes numbered from `first` up to `last`, none where `last` is the lower.
pub open spec fn notes_between(first: int, last: int) -> Seq<ChromaticNote> {
    if last < first {
        Seq::empty()
    } else {
        Seq::new((last - first + 1) as nat, |i: int| note_of_value(first + i))
    }
}

/// Those of the notes whose keys are white, in their order.
pub open spec fn white_notes(notes: Seq<ChromaticNote>) -> Seq<ChromaticNote> {
    notes.filter(|note: ChromaticNote| white_tone(note.tone))
}

/// The notes of a list of numbered keys.
pub open spec fn key_notes(keys: Seq<(usize, ChromaticNote)>) -> Seq<ChromaticNote> {
    keys.map_values(|key: (usize, ChromaticNote)| key.1)
}

/// The white keys of a keyboard, from the left, each with its place among them.
///
/// The keyboard runs from `first_key` to `last_key`, both included; where
/// `last_key` is the lower note it has no keys.
pub fn white_keys(first_key: ChromaticNote, last_key: ChromaticNote) -> (keys: Vec<
    (usize, ChromaticNote),
>)
    ensures
        key_notes(keys@) == white_notes(
            notes_between(note_value(first_key), note_value(last_key)),
        ),
        forall|k: int| 0 <= k < keys@.len() ==> (#[trigger] keys@[k]).0 == k,
{
    let first = i32::from(first_key);
    let last = i32::from(last_key);
    let mut keys: Vec<(usize, ChromaticNote)> = Vec::new();
    let mut value: i32 = first;
    proof {
        crate::chromatic::lemma_note_of_value_of_note(first_key);
        crate::chromatic::lemma_note_of_value_of_note(last_key);
        reveal(Seq::filter);
        assert(notes_between(first as int, first - 1) =~= Seq::<ChromaticNote>::empty());
        assert(key_notes(keys@) =~= Seq::<ChromaticNote>::empty());
    }
    while value <= last
        invariant
            first == note_value(first_key),
            last == note_value(last_key),
            0 <= last < 256 * 12,
            first <= value,
            value <= last + 1 || value == first,
            key_notes(keys@) == white_notes(notes_between(first as int, value - 1)),
            keys@.len() <= value - first,
            forall|k: int| 0 <= k < keys@.len() ==> (#[trigger] keys@[k]).0 == k,
        decreases last + 1 - value,
    {
        let note: ChromaticNote = Note::from(value);
        let ghost before = notes_between(first as int, value - 1);
        let ghost after = notes_between(first as int, value as int);
        proof {
            reveal(Seq::filter);
            assert(after.drop_last() =~= before);
            assert(after.last() == note);
        }
        if note.is_white_key() {
            let ghost listed = keys@;
            keys.push((keys.len(), note));
            assert(key_notes(keys@) =~= key_notes(listed).push(note));
        }
        value += 1;
    }
    keys
}

/// Helper struct to determine the offset of sequential black keys
#[derive(Debug)]
pub struct BlackKeys {
    /// The group of sequential keys.
    pub black_keys: Vec<ChromaticNote>,
    /// The white key just before the group of black keys.
    pub starting_white_key: ChromaticNote,
    /// Index given to the start_white_key. The index is the index of the white key of the
    /// piano being drawn.
    pub starting_index: usize,
}

/// A group of black keys as plain values.
pub struct KeyGroup {
    pub black_keys: Seq<ChromaticNote>,
    pub starting_white_key: ChromaticNote,
    pub starting_index: usize,
}

impl View for BlackKeys {
    type V = KeyGroup;

    open spec fn view(&self) -> KeyGroup {
        KeyGroup {
            black_keys: self.black_keys@,
            starting_white_key: self.starting_white_key,
            starting_index: self.starting_index,
        }
    }
}

impl KeyGroup {
    /// The group that no key has joined yet. It starts at middle C, at index 0.
    pub open spec fn none() -> KeyGroup {
        KeyGroup {
            black_keys: Seq::empty(),
            starting_white_key: Note { tone: ChromaticTone::C, octave: 4 },
            starting_index: 0,
        }
    }

    /// The group after the black key to the right of a white key has joined it.
    /// The first key to join gives the group its start.
    pub open spec fn joined(self, white_key: (usize, ChromaticNote)) -> KeyGroup {
        let black_key = note_of_value(note_value(white_key.1) + 1);
        if self.black_keys.len() == 0 {
            KeyGroup {
                black_keys: seq![black_key],
                starting_white_key: white_key.1,
                starting_index: white_key.0,
            }
        } else {
            KeyGroup {
                black_keys: self.black_keys.push(black_key),
                starting_white_key: self.starting_white_key,
                starting_index: self.starting_index,
            }
        }
    }

    /// The group without its last key.
    pub open spec fn trimmed(self) -> KeyGroup {
        KeyGroup {
            black_keys: self.black_keys.drop_last(),
            starting_white_key: self.starting_white_key,
            starting_index: self.starting_index,
        }
    }
}

/// The groups that are complete after the given white keys, from the left, and the
/// group that is still open. A white key with a black key to its right joins the
/// open group; any other white key completes it, if it has keys.
pub open spec fn scan_keys(white_keys: Seq<(usize, ChromaticNote)>) -> (Seq<KeyGroup>, KeyGroup)
    decreases white_keys.len(),
{
    if white_keys.len() == 0 {
        (Seq::empty(), KeyGroup::none())
    } else {
        let (groups, open) = scan_keys(white_keys.drop_last());
        let key = white_keys.last();
        if before_black_tone(key.1.tone) {
            (groups, open.joined(key))
        } else if open.black_keys.len() > 0 {
            (groups.push(open), KeyGroup::none())
        } else {
            (groups, open)
        }
    }
}

/// The groups of black keys of a keyboard with the given white keys. The group
/// that is open at the right end loses its last key, which would lie to the
/// right of the last white key, and counts if it has a key left.
pub open spec fn key_groups(white_keys: Seq<(usize, ChromaticNote)>) -> Seq<KeyGroup> {
    let (groups, open) = scan_keys(white_keys);
    if open.black_keys.len() > 1 {
        groups.push(open.trimmed())
    } else {
        groups
    }
}

/// The groups of a list as plain values.
pub open spec fn group_views(groups: Seq<BlackKeys>) -> Seq<KeyGroup> {
    groups.map_values(|group: BlackKeys| group@)
}

impl Default for BlackKeys {
    fn default() -> (group: Self)
        ensures
            group@ == KeyGroup::none(),
    {
        BlackKeys {
            black_keys: Vec::new(),
            starting_white_key: Note::new(ChromaticTone::C, 4),
            starting_index: 0,
        }
    }
}

impl BlackKeys {
    /// Does this group already have some black keys?
    ///
    /// Groups without any black keys should not be considered valid groups.
    pub fn is_empty(&self) -> (empty: bool)
        ensures
            empty == (self@.black_keys.len() == 0),
    {
        self.black_keys.is_empty()
    }

    /// Generate multiple groups for each set of sequential black keys.
    pub fn groups_from(white_keys: &[(usize, ChromaticNote)]) -> (groups: Vec<BlackKeys>)
        ensures
            group_views(groups@) == key_groups(white_keys@),
            forall|g: int| 0 <= g < groups@.len() ==> (#[trigger] groups@[g])@.black_keys.len() > 0,
    {
        let mut groups: Vec<BlackKeys> = Vec::new();
        let mut current_group = BlackKeys::default();
        assert(white_keys@.take(0) =~= Seq::empty());
        assert(group_views(groups@) =~= Seq::empty());
        for i in 0..white_keys.len()
            invariant
                (group_views(groups@), current_group@) == scan_keys(white_keys@.take(i as int)),
                forall|g: int|
                    0 <= g < groups@.len() ==> (#[trigger] groups@[g])@.black_keys.len() > 0,
        {
            let item = &white_keys[i];
            proof {
                assert(white_keys@.take(i + 1).drop_last() =~= white_keys@.take(i as int));
                assert(white_keys@.take(i + 1).last() == *item);
            }
            if item.1.is_followed_by_black_key() {
                // Add item to current group. Set starting key when the group doesn't have
                // any keys yet.
                if current_group.is_empty() {
                    current_group.starting_index = item.0;
                    current_group.starting_white_key = item.1;
                }
                proof {
                    crate::chromatic::lemma_note_of_value_of_note(item.1);
                }
                let ghost entered = current_group@;
                current_group.black_keys.push(item.1 + 1);
                assert(current_group@.black_keys =~= entered.joined(*item).black_keys);
            } else if !current_group.is_empty() {
                // Group is complete and should be added to the result.
                let ghost listed = groups@;
                groups.push(current_group);
                assert(group_views(groups@) =~= group_views(listed).push(current_group@));
                current_group = BlackKeys::default();
            }
        }
        assert(white_keys@.take(white_keys@.len() as int) =~= white_keys@);

        // remove the last black key as it would be drawn right to the last key.
        if !current_group.is_empty() {
            current_group.black_keys.remove(current_group.black_keys.len() - 1);
        }
        if !current_group.is_empty() {
            let ghost listed = groups@;
            let ghost last_group = current_group@;
            groups.push(current_group);
            assert(group_views(groups@) =~= group_views(listed).push(last_group));
            assert(last_group.black_keys =~= scan_keys(white_keys@).1.trimmed().black_keys);
        }
        groups
    }
}

} // verus!
