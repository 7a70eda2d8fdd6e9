use vstd::prelude::*;

verus! {

/// Marks a binding with no slot.
pub const NO_SLOT: u8 = 0xff;

/// Slots of the bindings of one argument group.
#[derive(Clone, Copy, Debug, Hash, PartialEq, Eq)]
pub struct GroupBindings {
    pub bindings: [u8; 64],
}

/// Slots of every argument group's bindings and of the push constants.
#[derive(Clone, Debug, Hash, PartialEq, Eq)]
pub struct Bindings {
    pub groups: [GroupBindings; 16],
    pub push_constants: Option<u8>,
}

impl Bindings {
    /// Bindings with no slot assigned.
    pub fn new() -> (r: Bindings)
        ensures
            forall|g: int, b: int| 0 <= g < 16 && 0 <= b < 64 ==> r.groups@[g].bindings@[b] == NO_SLOT,
            r.push_constants is None,
    {
        let invalid = GroupBindings { bindings: [NO_SLOT; 64] };
        Bindings { groups: [invalid; 16], push_constants: None }
    }

    /// Assigns `slot` to the push constants.
    pub fn set_push_constants(&mut self, slot: u8)
        ensures
            final(self).groups == old(self).groups,
            final(self).push_constants == Some(slot),
    {
        self.push_constants = Some(slot);
    }
}

} // verus!
