use crate::error::Result;
use crate::error::YatzyError;
use vstd::prelude::*;

verus! {

/// The current round of the game (1-13, one per scorecard category).
#[derive(Debug, Clone, Copy, PartialEq, Eq, Hash, Structural)]
pub struct RoundNumber {
    round: u8,
}

impl View for RoundNumber {
    type V = u8;

    closed spec fn view(&self) -> u8 {
        self.round
    }
}

impl RoundNumber {
    /// The number of rounds in a game.
    pub const LAST: u8 = 13;

    /// A round number is always in `1..=13`.
    #[verifier::type_invariant]
    pub open spec fn inv(&self) -> bool {
        1 <= self@ <= 13
    }

    /// The first round.
    pub fn first() -> (r: RoundNumber)
        ensures
            r@ == 1,
    {
        RoundNumber { round: 1 }
    }

    /// Create a round number; fails unless the value is in `1..=13`.
    pub fn new(round: u8) -> (r: Result<RoundNumber>)
        ensures
            (1 <= round <= 13) <==> r is Ok,
            r matches Ok(n) ==> n@ == round,
            r matches Err(e) ==> e == YatzyError::InvalidRoundNumber(round),
    {
        if 1 <= round && round <= 13 {
            Ok(RoundNumber { round })
        } else {
            Err(YatzyError::InvalidRoundNumber(round))
        }
    }

    /// Get the raw round number.
    pub fn get(self) -> (round: u8)
        ensures
            round == self@,
            1 <= round <= 13,
    {
        proof {
            use_type_invariant(&self);
        }
        self.round
    }
}

} // verus!
