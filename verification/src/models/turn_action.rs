use crate::models::category::ScoreCategory;
use crate::models::hold_mask::HoldMask;
use crate::models::score::Score;
use vstd::prelude::*;

verus! {

/// A semantic action that a player can take during their turn.
///
/// This enum encapsulates all possible player actions in a type-safe
/// manner, avoiding stringly-typed APIs. The game controller validates
/// each action against the current game state before executing it.
#[derive(Debug, Clone, PartialEq, Eq)]
pub enum TurnAction {
    /// Roll the non-held dice.
    Roll,
    /// Update the hold mask for the current dice.
    Hold {
        /// The new hold mask to apply.
        holds: HoldMask,
    },
    /// Enter a score in the given category.
    EnterScore {
        /// The category to enter the score in.
        category: ScoreCategory,
        /// The score to enter (calculated from dice values).
        score: Score,
    },
    /// Cross out a category (score zero).
    CrossOut {
        /// The category to cross out.
        category: ScoreCategory,
    },
}

} // verus!
