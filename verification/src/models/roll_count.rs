use crate::error::Result;
use crate::error::YatzyError;
use vstd::prelude::*;

verus! {

/// The number of rolls used in the current turn (1-3).
#[derive(Debug, Clone, Copy, PartialEq, Eq, Hash, Structural)]
pub struct RollCount {
    count: u8,
}

impl View for RollCount {
    type V = u8;

    closed spec fn view(&self) -> u8 {
        self.count
    }
}

impl RollCount {
    /// The maximum number of rolls per turn.
    pub const MAX: u8 = 3;

    /// A roll count is always in `1..=3`.
    #[verifier::type_invariant]
    pub open spec fn inv(&self) -> bool {
        1 <= self@ <= 3
    }

    /// The first roll of a turn.
    pub fn first() -> (r: RollCount)
        ensures
            r@ == 1,
    {
        RollCount { count: 1 }
    }

    /// Create a roll count; fails unless the value is in `1..=3`.
    pub fn new(count: u8) -> (r: Result<RollCount>)
        ensures
            (1 <= count <= 3) <==> r is Ok,
            r matches Ok(c) ==> c@ == count,
            r matches Err(e) ==> e == YatzyError::InvalidRollCount(count),
    {
        if 1 <= count && count <= 3 {
            Ok(RollCount { count })
        } else {
            Err(YatzyError::InvalidRollCount(count))
        }
    }

    /// Get the raw roll count.
    pub fn get(self) -> (count: u8)
        ensures
            count == self@,
            1 <= count <= 3,
    {
        proof {
            use_type_invariant(&self);
        }
        self.count
    }

    /// Returns true if all rolls of the turn have been used.
    pub fn is_exhausted(self) -> (b: bool)
        ensures
            b <==> self@ == 3,
    {
        self.count == Self::MAX
    }
}

} // verus!
