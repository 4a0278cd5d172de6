//! The state of one channel of a device.

use vstd::prelude::*;
use crate::note_state::NoteStateId;

verus! {

/// The voices that sound on a channel, the one taken first at the front.
#[derive(Debug, Clone)]
pub struct ChannelState {
    pub active_notes: Vec<NoteStateId>,
}

impl View for ChannelState {
    type V = Seq<NoteStateId>;

    open spec fn view(&self) -> Seq<NoteStateId> {
        self.active_notes@
    }
}

impl Default for ChannelState {
    /// A channel on which nothing sounds.
    fn default() -> (state: Self)
        ensures
            state@ == Seq::<NoteStateId>::empty(),
    {
        ChannelState { active_notes: Vec::new() }
    }
}

} // verus!
