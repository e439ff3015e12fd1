use crate::models::dice_slot::DiceSlot;
use vstd::prelude::*;

verus! {

/// Which physical die (by device name) is assigned to each of the five slots.
#[derive(Debug, Clone)]
pub struct SlotMapping {
    names: [Option<String>; 5],
}

/// The device name of an assignment as a sequence of characters.
pub open spec fn name_view(n: Option<String>) -> Option<Seq<char>> {
    match n {
        Some(s) => Some(s@),
        None => None,
    }
}

impl SlotMapping {
    /// The device name assigned to each slot, if any.
    pub closed spec fn names_of(&self) -> Seq<Option<Seq<char>>> {
        self.names@.map_values(|n: Option<String>| name_view(n))
    }

    /// The model has one entry per slot.
    pub proof fn lemma_len(&self)
        ensures
            self.names_of().len() == 5,
    {
    }

    /// A mapping with no die assigned.
    pub fn new() -> (m: SlotMapping)
        ensures
            forall|i: int| 0 <= i < 5 ==> #[trigger] m.names_of()[i] is None,
    {
        SlotMapping { names: [None, None, None, None, None] }
    }

    /// Assign the die named `device_name` to `slot`.
    pub fn assign(&mut self, slot: DiceSlot, device_name: &str)
        ensures
            final(self).names_of() == old(self).names_of().update(slot@ as int, Some(device_name@)),
    {
        let i = slot.get() as usize;
        self.names[i] = Some(String::from_str(device_name));
        assert(self.names_of() =~= old(self).names_of().update(slot@ as int, Some(device_name@)));
    }

    /// Remove the die assigned to `slot`, if any.
    pub fn unassign(&mut self, slot: DiceSlot)
        ensures
            final(self).names_of() == old(self).names_of().update(slot@ as int, None),
    {
        let i = slot.get() as usize;
        self.names[i] = None;
        assert(self.names_of() =~= old(self).names_of().update(slot@ as int, None));
    }

    /// Returns true if a die is assigned to `slot`.
    pub fn is_assigned(&self, slot: DiceSlot) -> (b: bool)
        ensures
            b <==> self.names_of()[slot@ as int] is Some,
    {
        let i = slot.get() as usize;
        self.names[i].is_some()
    }

    /// The device name assigned to `slot`, if any.
    pub fn device_name(&self, slot: DiceSlot) -> (name: Option<&str>)
        ensures
            match name {
                Some(n) => self.names_of()[slot@ as int] == Some(n@),
                None => self.names_of()[slot@ as int] is None,
            },
    {
        let i = slot.get() as usize;
        match &self.names[i] {
            Some(n) => Some(n.as_str()),
            None => None,
        }
    }
}

} // verus!
