use crate::models::player::Player;
use crate::models::score::Score;
use vstd::prelude::*;

verus! {

/// One line of the final standings: a player, their rank and final score.
#[derive(Debug, Clone, PartialEq, Eq)]
pub struct StandingEntry {
    /// The rank, 1 for the winner.
    rank: usize,
    /// The player.
    player: Player,
    /// The player's final score.
    final_score: Score,
}

impl StandingEntry {
    /// The rank of the entry.
    pub closed spec fn rank_of(&self) -> usize {
        self.rank
    }

    /// The player of the entry.
    pub closed spec fn player_of(&self) -> Player {
        self.player
    }

    /// The final score of the entry.
    pub closed spec fn final_score_of(&self) -> Score {
        self.final_score
    }

    /// Create a standing entry.
    pub fn new(rank: usize, player: Player, final_score: Score) -> (e: StandingEntry)
        ensures
            e.rank_of() == rank,
            e.player_of() == player,
            e.final_score_of() == final_score,
    {
        StandingEntry { rank, player, final_score }
    }

    /// The rank, 1 for the winner.
    pub fn rank(&self) -> (r: usize)
        ensures
            r == self.rank_of(),
    {
        self.rank
    }

    /// The player.
    pub fn player(&self) -> (p: &Player)
        ensures
            *p == self.player_of(),
    {
        &self.player
    }

    /// The final score.
    pub fn final_score(&self) -> (s: Score)
        ensures
            s == self.final_score_of(),
    {
        self.final_score
    }
}

} // verus!
