use crate::models::category_section::CategorySection;
use vstd::prelude::*;

verus! {

/// The 13 Kniffel scorecard categories.
///
/// Each category has specific rules for what dice combination is required
/// and how the score is calculated. Categories are divided into the
/// upper section (ones through sixes) and the lower section
/// (three-of-a-kind through chance).
#[derive(Debug, Clone, Copy, PartialEq, Eq, Hash, Structural)]
pub enum ScoreCategory {
    /// Sum of all 1s rolled.
    Ones,
    /// Sum of all 2s rolled.
    Twos,
    /// Sum of all 3s rolled.
    Threes,
    /// Sum of all 4s rolled.
    Fours,
    /// Sum of all 5s rolled.
    Fives,
    /// Sum of all 6s rolled.
    Sixes,
    /// At least three dice showing the same value. Score: sum of all dice.
    ThreeOfAKind,
    /// At least four dice showing the same value. Score: sum of all dice.
    FourOfAKind,
    /// Three of one value plus two of another. Score: 25 points.
    FullHouse,
    /// Four consecutive values. Score: 30 points.
    SmallStraight,
    /// Five consecutive values. Score: 40 points.
    LargeStraight,
    /// All five dice showing the same value. Score: 50 points.
    Yatzy,
    /// Any combination. Score: sum of all dice.
    Chance,
}

/// The category at a scorecard position (0-12); positions past the end
/// map to `Chance`.
pub open spec fn category_at(i: int) -> ScoreCategory {
    if i == 0 {
        ScoreCategory::Ones
    } else if i == 1 {
        ScoreCategory::Twos
    } else if i == 2 {
        ScoreCategory::Threes
    } else if i == 3 {
        ScoreCategory::Fours
    } else if i == 4 {
        ScoreCategory::Fives
    } else if i == 5 {
        ScoreCategory::Sixes
    } else if i == 6 {
        ScoreCategory::ThreeOfAKind
    } else if i == 7 {
        ScoreCategory::FourOfAKind
    } else if i == 8 {
        ScoreCategory::FullHouse
    } else if i == 9 {
        ScoreCategory::SmallStraight
    } else if i == 10 {
        ScoreCategory::LargeStraight
    } else if i == 11 {
        ScoreCategory::Yatzy
    } else {
        ScoreCategory::Chance
    }
}

/// All categories in scorecard order.
pub open spec fn all_categories() -> Seq<ScoreCategory> {
    Seq::new(13, |i: int| category_at(i))
}

impl ScoreCategory {
    /// Returns all 13 categories in scorecard order (upper section first).
    pub const ALL: [Self; 13] = [
        Self::Ones,
        Self::Twos,
        Self::Threes,
        Self::Fours,
        Self::Fives,
        Self::Sixes,
        Self::ThreeOfAKind,
        Self::FourOfAKind,
        Self::FullHouse,
        Self::SmallStraight,
        Self::LargeStraight,
        Self::Yatzy,
        Self::Chance,
    ];

    /// Position of the category on the scorecard (0-12).
    pub open spec fn idx(self) -> int {
        match self {
            ScoreCategory::Ones => 0,
            ScoreCategory::Twos => 1,
            ScoreCategory::Threes => 2,
            ScoreCategory::Fours => 3,
            ScoreCategory::Fives => 4,
            ScoreCategory::Sixes => 5,
            ScoreCategory::ThreeOfAKind => 6,
            ScoreCategory::FourOfAKind => 7,
            ScoreCategory::FullHouse => 8,
            ScoreCategory::SmallStraight => 9,
            ScoreCategory::LargeStraight => 10,
            ScoreCategory::Yatzy => 11,
            ScoreCategory::Chance => 12,
        }
    }

    /// Section of the category: the first six positions are the upper section.
    pub open spec fn section_of(self) -> CategorySection {
        if self.idx() < 6 {
            CategorySection::Upper
        } else {
            CategorySection::Lower
        }
    }

    /// Fluent message key of the category.
    pub open spec fn key_of(self) -> Seq<char> {
        match self {
            ScoreCategory::Ones => "category-ones"@,
            ScoreCategory::Twos => "category-twos"@,
            ScoreCategory::Threes => "category-threes"@,
            ScoreCategory::Fours => "category-fours"@,
            ScoreCategory::Fives => "category-fives"@,
            ScoreCategory::Sixes => "category-sixes"@,
            ScoreCategory::ThreeOfAKind => "category-three-of-a-kind"@,
            ScoreCategory::FourOfAKind => "category-four-of-a-kind"@,
            ScoreCategory::FullHouse => "category-full-house"@,
            ScoreCategory::SmallStraight => "category-small-straight"@,
            ScoreCategory::LargeStraight => "category-large-straight"@,
            ScoreCategory::Yatzy => "category-yatzy"@,
            ScoreCategory::Chance => "category-chance"@,
        }
    }

    /// Display text of the category.
    pub open spec fn text_of(self) -> Seq<char> {
        match self {
            ScoreCategory::Ones => "Ones"@,
            ScoreCategory::Twos => "Twos"@,
            ScoreCategory::Threes => "Threes"@,
            ScoreCategory::Fours => "Fours"@,
            ScoreCategory::Fives => "Fives"@,
            ScoreCategory::Sixes => "Sixes"@,
            ScoreCategory::ThreeOfAKind => "Three of a Kind"@,
            ScoreCategory::FourOfAKind => "Four of a Kind"@,
            ScoreCategory::FullHouse => "Full House"@,
            ScoreCategory::SmallStraight => "Small Straight"@,
            ScoreCategory::LargeStraight => "Large Straight"@,
            ScoreCategory::Yatzy => "Yatzy"@,
            ScoreCategory::Chance => "Chance"@,
        }
    }

    /// Returns the section (upper or lower) this category belongs to.
    pub fn section(&self) -> (s: CategorySection)
        ensures
            s == self.section_of(),
    {
        match self {
            Self::Ones | Self::Twos | Self::Threes | Self::Fours | Self::Fives | Self::Sixes => {
                CategorySection::Upper
            },
            Self::ThreeOfAKind | Self::FourOfAKind | Self::FullHouse | Self::SmallStraight
            | Self::LargeStraight | Self::Yatzy | Self::Chance => CategorySection::Lower,
        }
    }

    /// Returns the index of this category within the full scorecard (0-12).
    pub fn index(&self) -> (i: usize)
        ensures
            i == self.idx(),
            i < 13,
    {
        let mut i: usize = 0;
        while i < 13
            invariant
                i <= 13,
                forall|j: int| 0 <= j < i ==> Self::ALL@[j] != *self,
                Self::ALL@ == all_categories(),
            decreases 13 - i,
        {
            if Self::ALL[i] == *self {
                proof {
                    lemma_category_at_idx(*self);
                    lemma_idx_of_category_at(i as int);
                }
                return i;
            }
            i += 1;
        }
        proof {
            lemma_category_at_idx(*self);
            assert(Self::ALL@[self.idx()] == *self);
        }
        0
    }

    /// Fluent message key used to look up the localized text.
    pub fn fluent_key(&self) -> (key: &'static str)
        ensures
            key@ == self.key_of(),
    {
        proof {
            reveal_strlit("category-ones");
            reveal_strlit("category-twos");
            reveal_strlit("category-threes");
            reveal_strlit("category-fours");
            reveal_strlit("category-fives");
            reveal_strlit("category-sixes");
            reveal_strlit("category-three-of-a-kind");
            reveal_strlit("category-four-of-a-kind");
            reveal_strlit("category-full-house");
            reveal_strlit("category-small-straight");
            reveal_strlit("category-large-straight");
            reveal_strlit("category-yatzy");
            reveal_strlit("category-chance");
        }
        match self {
            Self::Ones => "category-ones",
            Self::Twos => "category-twos",
            Self::Threes => "category-threes",
            Self::Fours => "category-fours",
            Self::Fives => "category-fives",
            Self::Sixes => "category-sixes",
            Self::ThreeOfAKind => "category-three-of-a-kind",
            Self::FourOfAKind => "category-four-of-a-kind",
            Self::FullHouse => "category-full-house",
            Self::SmallStraight => "category-small-straight",
            Self::LargeStraight => "category-large-straight",
            Self::Yatzy => "category-yatzy",
            Self::Chance => "category-chance",
        }
    }

    /// The display text of the category.
    pub fn localized(&self) -> (text: String)
        ensures
            text@ == self.text_of(),
    {
        let s: &str = match self {
            Self::Ones => "Ones",
            Self::Twos => "Twos",
            Self::Threes => "Threes",
            Self::Fours => "Fours",
            Self::Fives => "Fives",
            Self::Sixes => "Sixes",
            Self::ThreeOfAKind => "Three of a Kind",
            Self::FourOfAKind => "Four of a Kind",
            Self::FullHouse => "Full House",
            Self::SmallStraight => "Small Straight",
            Self::LargeStraight => "Large Straight",
            Self::Yatzy => "Yatzy",
            Self::Chance => "Chance",
        };
        String::from_str(s)
    }

    /// The display text of the category (same as `localized`).
    pub fn to_string(&self) -> (text: String)
        ensures
            text@ == self.text_of(),
    {
        self.localized()
    }
}

/// The position of a category maps back to the category.
pub proof fn lemma_category_at_idx(c: ScoreCategory)
    ensures
        category_at(c.idx()) == c,
        0 <= c.idx() < 13,
{
}

/// Every scorecard position names the category whose index it is.
pub proof fn lemma_idx_of_category_at(i: int)
    requires
        0 <= i < 13,
    ensures
        category_at(i).idx() == i,
{
}

/// `ScoreCategory::ALL` lists every category exactly once, in index order:
/// the category at position `i` has index `i`, and each category sits at
/// the position given by its index.
pub proof fn lemma_all_in_index_order()
    ensures
        ScoreCategory::ALL@ == all_categories(),
        ScoreCategory::ALL@.len() == 13,
        forall|i: int| 0 <= i < 13 ==> (#[trigger] ScoreCategory::ALL@[i]).idx() == i,
        forall|c: ScoreCategory| ScoreCategory::ALL@[#[trigger] c.idx()] == c,
{
    assert(ScoreCategory::ALL@ =~= all_categories());
}

} // verus!
