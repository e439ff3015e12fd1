use vstd::prelude::*;

verus! {

/// Whether a player is a human or the computer opponent.
#[derive(Debug, Clone, Copy, PartialEq, Eq, Hash, Structural)]
pub enum PlayerType {
    /// A human player.
    Human,
    /// The computer opponent.
    Computer,
}

} // verus!
