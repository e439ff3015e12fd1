use crate::models::dice_slot::DiceSlot;
use vstd::prelude::*;

verus! {

/// Number of `true` entries in a sequence of flags.
pub open spec fn count_true(s: Seq<bool>) -> nat
    decreases s.len(),
{
    if s.len() == 0 {
        0
    } else {
        count_true(s.drop_last()) + if s.last() {
            1nat
        } else {
            0nat
        }
    }
}

/// Which of the five dice are held (kept) for the next roll.
#[derive(Debug, Clone, Copy, PartialEq, Eq, Hash)]
pub struct HoldMask {
    held: [bool; 5],
}

impl View for HoldMask {
    type V = Seq<bool>;

    closed spec fn view(&self) -> Seq<bool> {
        self.held@
    }
}

impl HoldMask {
    /// The mask always has one flag per slot.
    pub proof fn lemma_len(m: HoldMask)
        ensures
            m@.len() == 5,
    {
    }

    /// Two masks are equal exactly when their flags are.
    pub proof fn lemma_view_injective(a: HoldMask, b: HoldMask)
        ensures
            a@ == b@ ==> a == b,
    {
        if a@ == b@ {
            assert(forall|i: int| 0 <= i < 5 ==> a.held[i] == b.held@[i]);
            assert(a.held =~= b.held);
        }
    }

    /// No dice held.
    pub fn none() -> (m: HoldMask)
        ensures
            m@ == seq![false, false, false, false, false],
    {
        HoldMask { held: [false; 5] }
    }

    /// All dice held.
    pub fn all() -> (m: HoldMask)
        ensures
            m@ == seq![true, true, true, true, true],
    {
        HoldMask { held: [true; 5] }
    }

    /// A mask from one flag per slot.
    pub fn from_flags(held: [bool; 5]) -> (m: HoldMask)
        ensures
            m@ == held@,
    {
        HoldMask { held }
    }

    /// Returns true if the die in `slot` is held.
    pub fn is_held(&self, slot: DiceSlot) -> (b: bool)
        ensures
            b == self@[slot@ as int],
    {
        let i = slot.get();
        self.held[i as usize]
    }

    /// Hold or release the die in `slot`.
    pub fn set_held(&mut self, slot: DiceSlot, held: bool)
        ensures
            final(self)@ == old(self)@.update(slot@ as int, held),
    {
        let i = slot.get();
        self.held[i as usize] = held;
    }

    /// Toggle the hold state of the die in `slot`.
    pub fn toggle(&mut self, slot: DiceSlot)
        ensures
            final(self)@ == old(self)@.update(slot@ as int, !old(self)@[slot@ as int]),
    {
        let i = slot.get();
        let cur = self.held[i as usize];
        self.held[i as usize] = !cur;
    }

    /// Number of held dice.
    pub fn held_count(&self) -> (n: usize)
        ensures
            n == count_true(self@),
            n <= 5,
    {
        let mut n: usize = 0;
        let mut i: usize = 0;
        while i < 5
            invariant
                i <= 5,
                n == count_true(self@.take(i as int)),
                n <= i,
            decreases 5 - i,
        {
            assert(self@.take(i as int + 1).drop_last() =~= self@.take(i as int));
            if self.held[i] {
                n += 1;
            }
            i += 1;
        }
        assert(self@.take(5) =~= self@);
        n
    }

    /// Number of dice that will be re-rolled (not held).
    pub fn reroll_count(&self) -> (n: usize)
        ensures
            n == 5 - count_true(self@),
    {
        5 - self.held_count()
    }
}

} // verus!

verus! {

/// Toggling the same slot twice gives back the mask toggled.
pub proof fn lemma_toggle_twice(mask: HoldMask, once: HoldMask, twice: HoldMask, slot: DiceSlot)
    requires
        slot@ < 5,
        once@ == mask@.update(slot@ as int, !mask@[slot@ as int]),
        twice@ == once@.update(slot@ as int, !once@[slot@ as int]),
    ensures
        twice == mask,
{
    HoldMask::lemma_len(mask);
    assert(twice@ =~= mask@);
    HoldMask::lemma_view_injective(twice, mask);
}

/// Held and re-rolled dice add up to the five dice.
pub proof fn lemma_held_plus_rerolled(mask: HoldMask)
    ensures
        count_true(mask@) <= 5,
        count_true(mask@) + (5 - count_true(mask@)) == 5,
{
    HoldMask::lemma_len(mask);
    lemma_count_true_le_len(mask@);
}

/// At most every flag is set.
pub proof fn lemma_count_true_le_len(s: Seq<bool>)
    ensures
        count_true(s) <= s.len(),
    decreases s.len(),
{
    if s.len() > 0 {
        lemma_count_true_le_len(s.drop_last());
    }
}

} // verus!
