use crate::error::Result;
use crate::error::YatzyError;
use vstd::prelude::*;

verus! {

/// One of the five dice positions of the game (0-4).
#[derive(Debug, Clone, Copy, PartialEq, Eq, Hash, Structural)]
pub struct DiceSlot {
    index: u8,
}

impl View for DiceSlot {
    type V = u8;

    closed spec fn view(&self) -> u8 {
        self.index
    }
}

/// The slots `0..n` in increasing order.
pub open spec fn slots_up_to(n: int) -> Seq<u8> {
    Seq::new(n as nat, |i: int| i as u8)
}

impl DiceSlot {
    /// The number of dice slots.
    pub const COUNT: usize = 5;

    /// A slot index is always in `0..5`.
    #[verifier::type_invariant]
    pub open spec fn inv(&self) -> bool {
        self@ < 5
    }

    /// Two slots are equal exactly when their indices are.
    pub proof fn lemma_view_injective(a: DiceSlot, b: DiceSlot)
        ensures
            a@ == b@ <==> a == b,
    {
    }

    /// Create a slot from an index; fails unless the index is in `0..5`.
    pub fn new(index: u8) -> (r: Result<DiceSlot>)
        ensures
            index < 5 <==> r is Ok,
            r matches Ok(s) ==> s@ == index,
            r matches Err(e) ==> e == YatzyError::InvalidDiceSlot(index),
    {
        if index < 5 {
            Ok(DiceSlot { index })
        } else {
            Err(YatzyError::InvalidDiceSlot(index))
        }
    }

    /// Get the slot index (0-4).
    pub fn get(self) -> (index: u8)
        ensures
            index == self@,
            index < 5,
    {
        proof {
            use_type_invariant(&self);
        }
        self.index
    }

    /// All five slots in increasing order.
    pub fn all() -> (slots: Vec<DiceSlot>)
        ensures
            slots@.len() == 5,
            forall|i: int| 0 <= i < 5 ==> (#[trigger] slots@[i])@ == i,
    {
        let mut slots: Vec<DiceSlot> = Vec::new();
        let mut i: u8 = 0;
        while i < 5
            invariant
                i <= 5,
                slots@.len() == i,
                forall|j: int| 0 <= j < i ==> (#[trigger] slots@[j])@ == j,
            decreases 5 - i,
        {
            slots.push(DiceSlot { index: i });
            i += 1;
        }
        slots
    }
}

} // verus!
