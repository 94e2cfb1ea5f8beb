//! The clip catalog: one clip handle per slot, found by behaviour state.

use vstd::prelude::*;
use crate::state::{CATALOG_SIZE, StateCode};

verus! {

/// The clips of the character in slot order, for any kind of clip handle.
///
/// A catalog always holds [`CATALOG_SIZE`] handles, and slot
/// [`StateCode::ordinal`] holds the clip of that state.
pub struct ClipCatalog<H> {
    clips: Vec<H>,
}

/// The name under which the asset system knows the clip of a slot.
pub open spec fn spec_clip_label(slot: usize) -> Seq<char> {
    if slot == 0 {
        "ba.gltf#Animation2"@
    } else if slot == 1 {
        "ba.gltf#Animation1"@
    } else if slot == 2 {
        "ba.gltf#Animation0"@
    } else {
        "ba.gltf#Animation3"@
    }
}

/// The name under which the asset system knows the clip of a slot.
pub fn clip_label(slot: usize) -> (label: &'static str)
    requires
        slot < CATALOG_SIZE,
    ensures
        label@ == spec_clip_label(slot),
{
    if slot == 0 {
        "ba.gltf#Animation2"
    } else if slot == 1 {
        "ba.gltf#Animation1"
    } else if slot == 2 {
        "ba.gltf#Animation0"
    } else {
        "ba.gltf#Animation3"
    }
}

impl<H> ClipCatalog<H> {
    #[verifier::type_invariant]
    spec fn well_formed(&self) -> bool {
        self.clips@.len() == CATALOG_SIZE
    }

    /// The handles in slot order.
    pub closed spec fn view(&self) -> Seq<H> {
        self.clips@
    }

    /// A catalog of the four handles, given in slot order: the handle loaded
    /// for [`clip_label`]`(0)` first.
    pub fn new(slot0: H, slot1: H, slot2: H, slot3: H) -> (catalog: Self)
        ensures
            catalog@ == seq![slot0, slot1, slot2, slot3],
    {
        let mut clips: Vec<H> = Vec::new();
        clips.push(slot0);
        clips.push(slot1);
        clips.push(slot2);
        clips.push(slot3);
        assert(clips@ =~= seq![slot0, slot1, slot2, slot3]);
        ClipCatalog { clips }
    }

    /// The clip to play while the character is in `state`.
    pub fn clip_for(&self, state: StateCode) -> (clip: &H)
        ensures
            self@.len() == CATALOG_SIZE,
            *clip == self@[state.spec_ordinal() as int],
    {
        proof {
            use_type_invariant(self);
        }
        &self.clips[state.ordinal()]
    }
}

} // verus!
