use crate::models::score::Score;
use vstd::prelude::*;

verus! {

/// The state of a single scorecard category entry.
///
/// A category starts empty. Once a player enters a score or crosses out
/// the category, it becomes filled or crossed out respectively. Both
/// filled and crossed-out categories are considered "used" and cannot
/// be changed.
#[derive(Debug, Clone, Copy, PartialEq, Eq, Structural)]
pub enum ScoreEntry {
    /// The category has not been filled yet.
    Empty,
    /// The category has been filled with a score.
    Filled(Score),
    /// The category has been crossed out (score 0, no valid combination).
    CrossedOut,
}

/// The points an entry contributes to the totals: its score if filled, else 0.
pub open spec fn entry_points(e: ScoreEntry) -> nat {
    match e {
        ScoreEntry::Filled(s) => s@ as nat,
        _ => 0,
    }
}

impl ScoreEntry {
    /// Returns true if the category is empty (available for entry).
    pub fn is_empty(&self) -> (b: bool)
        ensures
            b <==> *self is Empty,
    {
        matches!(self, Self::Empty)
    }

    /// Returns true if the category has been used (filled or crossed out).
    pub fn is_used(&self) -> (b: bool)
        ensures
            b <==> !(*self is Empty),
    {
        !self.is_empty()
    }

    /// Returns the score value of this entry, or 0 if empty or crossed out.
    pub fn score(&self) -> (s: Score)
        ensures
            s@ == entry_points(*self),
    {
        match self {
            Self::Filled(score) => *score,
            Self::Empty | Self::CrossedOut => Score::zero(),
        }
    }
}

impl Default for ScoreEntry {
    fn default() -> (e: Self)
        ensures
            e is Empty,
    {
        ScoreEntry::Empty
    }
}

} // verus!
