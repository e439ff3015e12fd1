use vstd::prelude::*;

verus! {

/// A score value in points.
///
/// A newtype over `u32` so that points are never confused with other
/// integers (face values, counts, indices).
#[derive(Debug, Clone, Copy, PartialEq, Eq, Structural)]
pub struct Score {
    points: u32,
}

impl View for Score {
    type V = u32;

    closed spec fn view(&self) -> u32 {
        self.points
    }
}

impl Score {
    /// Two scores are equal exactly when their point values are.
    pub proof fn lemma_view_injective(a: Score, b: Score)
        ensures
            a@ == b@ <==> a == b,
    {
    }

    /// Create a score from a raw point value.
    pub fn new(points: u32) -> (s: Score)
        ensures
            s@ == points,
    {
        Score { points }
    }

    /// The zero score.
    pub fn zero() -> (s: Score)
        ensures
            s@ == 0,
    {
        Score { points: 0 }
    }

    /// Get the raw point value.
    pub fn get(self) -> (points: u32)
        ensures
            points == self@,
    {
        self.points
    }

    /// Sum of two scores.
    pub fn plus(self, other: Score) -> (s: Score)
        requires
            self@ + other@ <= u32::MAX,
        ensures
            s@ == self@ + other@,
    {
        Score { points: self.points + other.points }
    }
}

} // verus!
