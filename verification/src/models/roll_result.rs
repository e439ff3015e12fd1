use vstd::prelude::*;

verus! {

/// The classification of a dice roll for celebration purposes.
///
/// Represents special roll combinations that trigger LED celebration
/// effects. Rolls that don't match any special combination are
/// classified as `Normal`.
#[derive(Debug, Clone, Copy, PartialEq, Eq, Hash, Structural)]
pub enum RollResult {
    /// Five of a kind — the highest celebration.
    Yatzy,
    /// Three of one value and two of another.
    FullHouse,
    /// Five consecutive values (1-2-3-4-5 or 2-3-4-5-6).
    LargeStraight,
    /// Four consecutive values.
    SmallStraight,
    /// Four of a kind.
    FourOfAKind,
    /// Three of a kind.
    ThreeOfAKind,
    /// No special combination.
    Normal,
}

impl RollResult {
    /// Display priority: Yatzy 6, large straight 5, full house 4, small
    /// straight 3, four of a kind 2, three of a kind 1, normal 0.
    pub open spec fn priority_of(self) -> u8 {
        match self {
            RollResult::Yatzy => 6,
            RollResult::LargeStraight => 5,
            RollResult::FullHouse => 4,
            RollResult::SmallStraight => 3,
            RollResult::FourOfAKind => 2,
            RollResult::ThreeOfAKind => 1,
            RollResult::Normal => 0,
        }
    }

    /// Fluent message key of the result.
    pub open spec fn key_of(self) -> Seq<char> {
        match self {
            RollResult::Yatzy => "roll-result-yatzy"@,
            RollResult::FullHouse => "roll-result-full-house"@,
            RollResult::LargeStraight => "roll-result-large-straight"@,
            RollResult::SmallStraight => "roll-result-small-straight"@,
            RollResult::FourOfAKind => "roll-result-four-of-a-kind"@,
            RollResult::ThreeOfAKind => "roll-result-three-of-a-kind"@,
            RollResult::Normal => "roll-result-normal"@,
        }
    }

    /// Display text of the result.
    pub open spec fn text_of(self) -> Seq<char> {
        match self {
            RollResult::Yatzy => "Yatzy!"@,
            RollResult::FullHouse => "Full House"@,
            RollResult::LargeStraight => "Large Straight"@,
            RollResult::SmallStraight => "Small Straight"@,
            RollResult::FourOfAKind => "Four of a Kind"@,
            RollResult::ThreeOfAKind => "Three of a Kind"@,
            RollResult::Normal => "Normal roll"@,
        }
    }

    /// Returns true if this result warrants a LED celebration effect.
    pub fn is_celebration(self) -> (b: bool)
        ensures
            b <==> !(self == RollResult::Normal || self == RollResult::ThreeOfAKind),
    {
        !matches!(self, Self::Normal | Self::ThreeOfAKind)
    }

    /// Returns the priority of this result for display purposes.
    /// Higher values indicate more significant results.
    pub fn priority(self) -> (p: u8)
        ensures
            p == self.priority_of(),
    {
        match self {
            Self::Yatzy => 6,
            Self::LargeStraight => 5,
            Self::FullHouse => 4,
            Self::SmallStraight => 3,
            Self::FourOfAKind => 2,
            Self::ThreeOfAKind => 1,
            Self::Normal => 0,
        }
    }

    /// Fluent message key used to look up the localized text.
    pub fn fluent_key(&self) -> (key: &'static str)
        ensures
            key@ == self.key_of(),
    {
        proof {
            reveal_strlit("roll-result-yatzy");
            reveal_strlit("roll-result-full-house");
            reveal_strlit("roll-result-large-straight");
            reveal_strlit("roll-result-small-straight");
            reveal_strlit("roll-result-four-of-a-kind");
            reveal_strlit("roll-result-three-of-a-kind");
            reveal_strlit("roll-result-normal");
        }
        match self {
            Self::Yatzy => "roll-result-yatzy",
            Self::FullHouse => "roll-result-full-house",
            Self::LargeStraight => "roll-result-large-straight",
            Self::SmallStraight => "roll-result-small-straight",
            Self::FourOfAKind => "roll-result-four-of-a-kind",
            Self::ThreeOfAKind => "roll-result-three-of-a-kind",
            Self::Normal => "roll-result-normal",
        }
    }

    /// The display text of the result.
    pub fn localized(&self) -> (text: String)
        ensures
            text@ == self.text_of(),
    {
        let s: &str = match self {
            Self::Yatzy => "Yatzy!",
            Self::FullHouse => "Full House",
            Self::LargeStraight => "Large Straight",
            Self::SmallStraight => "Small Straight",
            Self::FourOfAKind => "Four of a Kind",
            Self::ThreeOfAKind => "Three of a Kind",
            Self::Normal => "Normal roll",
        };
        String::from_str(s)
    }

    /// The display text of the result (same as `localized`).
    pub fn to_string(&self) -> (text: String)
        ensures
            text@ == self.text_of(),
    {
        self.localized()
    }
}

/// Priorities are distinct, so they order the results strictly; every
/// celebration outranks three of a kind and a normal roll.
pub proof fn lemma_priority_order(a: RollResult, b: RollResult)
    ensures
        a.priority_of() == b.priority_of() ==> a == b,
        a.priority_of() <= 6,
        (!(a == RollResult::Normal || a == RollResult::ThreeOfAKind)) ==> a.priority_of() >= 2,
{
}

} // verus!
