use crate::models::score::Score;
use vstd::prelude::*;

verus! {

/// A single highscore entry recording a player's name and final score.
#[derive(Debug, Clone, PartialEq, Eq)]
pub struct HighscoreEntry {
    /// The player's display name.
    player_name: String,
    /// The player's final grand total score.
    score: Score,
}

impl HighscoreEntry {
    /// The recorded name.
    pub closed spec fn name_of(&self) -> Seq<char> {
        self.player_name@
    }

    /// The recorded score.
    pub closed spec fn score_of(&self) -> Score {
        self.score
    }

    /// Create a new highscore entry.
    pub fn new(player_name: &str, score: Score) -> (e: HighscoreEntry)
        ensures
            e.name_of() == player_name@,
            e.score_of() == score,
    {
        HighscoreEntry { player_name: String::from_str(player_name), score }
    }

    /// Get the player's name.
    pub fn player_name(&self) -> (s: &str)
        ensures
            s@ == self.name_of(),
    {
        self.player_name.as_str()
    }

    /// Get the score.
    pub fn score(&self) -> (s: Score)
        ensures
            s == self.score_of(),
    {
        self.score
    }
}

} // verus!
