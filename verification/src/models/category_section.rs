use vstd::prelude::*;

verus! {

/// The two sections of a Kniffel scorecard.
#[derive(Debug, Clone, Copy, PartialEq, Eq, Hash, Structural)]
pub enum CategorySection {
    /// Ones through Sixes.
    Upper,
    /// Three-of-a-kind through Chance.
    Lower,
}

impl CategorySection {
    /// Upper section subtotal needed for the bonus.
    pub const UPPER_BONUS_THRESHOLD: u32 = 63;

    /// Points awarded when the upper section reaches the threshold.
    pub const UPPER_BONUS_POINTS: u32 = 35;
}

} // verus!
