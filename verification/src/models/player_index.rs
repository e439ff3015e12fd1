use crate::error::Result;
use crate::error::YatzyError;
use vstd::prelude::*;

verus! {

/// Index into the player list of a game.
///
/// A newtype wrapper around `usize` that provides type safety for
/// player indexing operations.
#[derive(Debug, Clone, Copy, PartialEq, Eq, PartialOrd, Ord, Hash, Structural)]
pub struct PlayerIndex {
    value: usize,
}

impl View for PlayerIndex {
    type V = usize;

    closed spec fn view(&self) -> usize {
        self.value
    }
}

impl PlayerIndex {
    /// Two indices are equal exactly when their values are.
    pub proof fn lemma_view_injective(a: PlayerIndex, b: PlayerIndex)
        ensures
            a@ == b@ <==> a == b,
    {
    }

    /// Create a player index from a raw value.
    pub fn new(value: usize) -> (i: PlayerIndex)
        ensures
            i@ == value,
    {
        PlayerIndex { value }
    }

    /// Get the raw index value.
    pub fn get(self) -> (value: usize)
        ensures
            value == self@,
    {
        self.value
    }

    /// Returns the next player index, wrapping around to 0.
    pub fn next_wrapping(self, player_count: usize) -> (next: PlayerIndex)
        requires
            player_count > 0,
            self@ < usize::MAX,
        ensures
            next@ == (self@ + 1) % (player_count as int),
    {
        PlayerIndex { value: (self.value + 1) % player_count }
    }
}

/// Validates that a player index is within bounds for the given player count.
pub fn validate_index(index: PlayerIndex, player_count: usize) -> (r: Result<()>)
    ensures
        r is Ok <==> index@ < player_count,
        r matches Err(e) ==> e == YatzyError::InvalidPlayerIndex(index@),
{
    if index.get() >= player_count {
        return Err(YatzyError::InvalidPlayerIndex(index.get()));
    }
    Ok(())
}

/// Going to the next player from a valid index stays valid and, after
/// `player_count` steps, cycles back: the successor of the last index is 0
/// and every other index is followed by the next one.
pub proof fn lemma_next_wrapping_cycles(index: usize, player_count: usize)
    requires
        player_count > 0,
        index < player_count,
    ensures
        (index + 1) % (player_count as int) < player_count,
        index + 1 == player_count ==> (index + 1) % (player_count as int) == 0,
        index + 1 < player_count ==> (index + 1) % (player_count as int) == index + 1,
{
    if index + 1 < player_count {
        vstd::arithmetic::div_mod::lemma_small_mod((index + 1) as nat, player_count as nat);
    }
}

} // verus!
