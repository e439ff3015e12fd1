use vstd::prelude::*;

verus! {

/// The phase within a single player's turn.
#[derive(Debug, Clone, Copy, PartialEq, Eq, Hash, Structural)]
pub enum TurnPhase {
    /// Waiting for the player to roll.
    AwaitingRoll,
    /// The dice are rolling.
    Rolling,
    /// The player chooses which dice to hold.
    Holding,
    /// The player chooses a category to score or cross out.
    Scoring,
    /// The turn is over.
    TurnEnd,
}

} // verus!
