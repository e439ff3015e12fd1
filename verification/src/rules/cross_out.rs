use crate::models::category::ScoreCategory;
use crate::models::category::all_categories;
use crate::models::category::category_at;
use crate::models::category::lemma_all_in_index_order;
use crate::models::dice_set::DiceSet;
use crate::models::dice_set::all_die_faces;
use crate::rules::scoring::category_points;
use crate::rules::scoring::count_face;
use crate::rules::scoring::lemma_count_face_le_len;
use crate::rules::scoring::lemma_sum_faces_bounds;
use crate::rules::scoring::sum_faces;
use crate::models::score::Score;
use crate::models::score_entry::ScoreEntry;
use crate::models::scorecard::Scorecard;
use vstd::prelude::*;

verus! {

/// The most points a category can ever score with five dice.
pub open spec fn max_points_of(c: ScoreCategory) -> nat {
    match c {
        ScoreCategory::Ones => 5,
        ScoreCategory::Twos => 10,
        ScoreCategory::Threes => 15,
        ScoreCategory::Fours => 20,
        ScoreCategory::Fives => 25,
        ScoreCategory::Sixes => 30,
        ScoreCategory::ThreeOfAKind => 30,
        ScoreCategory::FourOfAKind => 30,
        ScoreCategory::FullHouse => 25,
        ScoreCategory::SmallStraight => 30,
        ScoreCategory::LargeStraight => 40,
        ScoreCategory::Yatzy => 50,
        ScoreCategory::Chance => 30,
    }
}

/// Among the empty entries at positions `0..i`, the first one whose
/// category can score the fewest points at most.
pub open spec fn cheapest_empty_upto(entries: Seq<ScoreEntry>, i: int) -> Option<ScoreCategory>
    decreases i,
{
    if i <= 0 {
        None
    } else {
        let prev = cheapest_empty_upto(entries, i - 1);
        let c = category_at(i - 1);
        if entries[i - 1] is Empty && (prev is None || max_points_of(c) < max_points_of(
            prev->Some_0,
        )) {
            Some(c)
        } else {
            prev
        }
    }
}

/// The category to give up: the empty category that could score the fewest
/// points at most (the first in scorecard order among equals); none when
/// the scorecard is complete.
pub open spec fn cheapest_empty(entries: Seq<ScoreEntry>) -> Option<ScoreCategory> {
    cheapest_empty_upto(entries, 13)
}

/// A recommendation of which category to cross out.
#[derive(Debug, Clone, Copy, PartialEq, Eq)]
pub struct CrossOutRecommendation {
    category: ScoreCategory,
    forfeited: Score,
}

impl CrossOutRecommendation {
    /// The recommended category.
    pub closed spec fn category_of(&self) -> ScoreCategory {
        self.category
    }

    /// The most points given up by crossing the category out.
    pub closed spec fn forfeited_of(&self) -> Score {
        self.forfeited
    }

    /// The category to cross out.
    pub fn category(&self) -> (c: ScoreCategory)
        ensures
            c == self.category_of(),
    {
        self.category
    }

    /// The most points the category could have scored.
    pub fn forfeited(&self) -> (s: Score)
        ensures
            s == self.forfeited_of(),
    {
        self.forfeited
    }
}

/// Advises which category to cross out when a roll scores nothing useful.
#[derive(Debug, Clone, Copy, PartialEq, Eq)]
pub struct CrossOutAdvisor {}

impl CrossOutAdvisor {
    /// Create a new advisor.
    pub fn new() -> (a: CrossOutAdvisor) {
        CrossOutAdvisor {  }
    }

    /// The most points a category can ever score with five dice.
    pub fn max_points(category: ScoreCategory) -> (points: u32)
        ensures
            points == max_points_of(category),
    {
        match category {
            ScoreCategory::Ones => 5,
            ScoreCategory::Twos => 10,
            ScoreCategory::Threes => 15,
            ScoreCategory::Fours => 20,
            ScoreCategory::Fives => 25,
            ScoreCategory::Sixes => 30,
            ScoreCategory::ThreeOfAKind => 30,
            ScoreCategory::FourOfAKind => 30,
            ScoreCategory::FullHouse => 25,
            ScoreCategory::SmallStraight => 30,
            ScoreCategory::LargeStraight => 40,
            ScoreCategory::Yatzy => 50,
            ScoreCategory::Chance => 30,
        }
    }

    /// Recommend a category to cross out voluntarily: the empty category
    /// that could score the fewest points at most, so that the least is
    /// given up. Returns `None` if the scorecard is complete.
    pub fn recommend_voluntary(&self, scorecard: &Scorecard, _dice: &DiceSet) -> (rec: Option<
        CrossOutRecommendation,
    >)
        ensures
            rec is None <==> cheapest_empty(scorecard.entries_of()) is None,
            rec matches Some(r) ==> Some(r.category_of()) == cheapest_empty(scorecard.entries_of())
                && r.forfeited_of()@ == max_points_of(r.category_of()),
    {
        proof {
            lemma_all_in_index_order();
            scorecard.lemma_wf();
        }
        let mut best: Option<ScoreCategory> = None;
        let mut i: usize = 0;
        while i < 13
            invariant
                i <= 13,
                ScoreCategory::ALL@ == all_categories(),
                best == cheapest_empty_upto(scorecard.entries_of(), i as int),
            decreases 13 - i,
        {
            let c = ScoreCategory::ALL[i];
            if !scorecard.is_filled(c) {
                let better = match best {
                    None => true,
                    Some(b) => Self::max_points(c) < Self::max_points(b),
                };
                if better {
                    best = Some(c);
                }
            }
            i += 1;
        }
        match best {
            None => None,
            Some(c) => Some(
                CrossOutRecommendation { category: c, forfeited: Score::new(Self::max_points(c)) },
            ),
        }
    }
}

impl Default for CrossOutAdvisor {
    fn default() -> (a: Self) {
        Self::new()
    }
}

/// Five dice on which a category scores the most it can.
pub open spec fn best_roll_for(c: ScoreCategory) -> Seq<u8> {
    match c {
        ScoreCategory::Ones => seq![1u8, 1, 1, 1, 1],
        ScoreCategory::Twos => seq![2u8, 2, 2, 2, 2],
        ScoreCategory::Threes => seq![3u8, 3, 3, 3, 3],
        ScoreCategory::Fours => seq![4u8, 4, 4, 4, 4],
        ScoreCategory::Fives => seq![5u8, 5, 5, 5, 5],
        ScoreCategory::FullHouse => seq![2u8, 2, 3, 3, 3],
        ScoreCategory::SmallStraight => seq![1u8, 2, 3, 4, 6],
        ScoreCategory::LargeStraight => seq![1u8, 2, 3, 4, 5],
        _ => seq![6u8, 6, 6, 6, 6],
    }
}

/// Face counts and the sum of five dice, die by die.
proof fn lemma_five_dice(w: Seq<u8>, v: u8)
    requires
        w.len() == 5,
    ensures
        count_face(w, v) == (if w[0] == v { 1nat } else { 0nat }) + (if w[1] == v { 1nat } else { 0nat }) + (if w[2]
            == v { 1nat } else { 0nat }) + (if w[3] == v { 1nat } else { 0nat }) + (if w[4] == v { 1nat } else { 0nat }),
        sum_faces(w) == w[0] + w[1] + w[2] + w[3] + w[4],
{
    let w4 = w.drop_last();
    let w3 = w4.drop_last();
    let w2 = w3.drop_last();
    let w1 = w2.drop_last();
    let w0 = w1.drop_last();
    assert(w0.len() == 0);
    assert(count_face(w0, v) == 0 && sum_faces(w0) == 0);
    assert(w1.last() == w[0] && w2.last() == w[1] && w3.last() == w[2] && w4.last() == w[3]);
    assert(count_face(w1, v) == count_face(w0, v) + if w[0] == v { 1nat } else { 0nat });
    assert(count_face(w2, v) == count_face(w1, v) + if w[1] == v { 1nat } else { 0nat });
    assert(count_face(w3, v) == count_face(w2, v) + if w[2] == v { 1nat } else { 0nat });
    assert(count_face(w4, v) == count_face(w3, v) + if w[3] == v { 1nat } else { 0nat });
    assert(count_face(w, v) == count_face(w4, v) + if w[4] == v { 1nat } else { 0nat });
    assert(sum_faces(w1) == sum_faces(w0) + w[0]);
    assert(sum_faces(w2) == sum_faces(w1) + w[1]);
    assert(sum_faces(w3) == sum_faces(w2) + w[2]);
    assert(sum_faces(w4) == sum_faces(w3) + w[3]);
    assert(sum_faces(w) == sum_faces(w4) + w[4]);
}

/// On five dice no category scores more than it forfeits when crossed out.
proof fn lemma_max_points_bound(c: ScoreCategory, r: Seq<u8>)
    requires
        r.len() == 5,
        all_die_faces(r),
    ensures
        category_points(c, r) <= max_points_of(c),
{
    lemma_sum_faces_bounds(r);
    lemma_count_face_le_len(r, 1);
    lemma_count_face_le_len(r, 2);
    lemma_count_face_le_len(r, 3);
    lemma_count_face_le_len(r, 4);
    lemma_count_face_le_len(r, 5);
    lemma_count_face_le_len(r, 6);
}

/// On its best roll a category scores what it forfeits when crossed out.
proof fn lemma_best_roll_scores_max(c: ScoreCategory)
    ensures
        best_roll_for(c).len() == 5,
        all_die_faces(best_roll_for(c)),
        category_points(c, best_roll_for(c)) == max_points_of(c),
{
    let w = best_roll_for(c);
    assert(w.len() == 5);
    lemma_five_dice(w, 1);
    lemma_five_dice(w, 2);
    lemma_five_dice(w, 3);
    lemma_five_dice(w, 4);
    lemma_five_dice(w, 5);
    lemma_five_dice(w, 6);
    crate::rules::scoring::lemma_straights_and_yatzy_by_faces(w);
    assert(all_die_faces(w)) by {
        assert forall|i: int| 0 <= i < w.len() implies crate::models::dice_set::is_die_face(#[trigger] w[i]) by {
            assert(i == 0 || i == 1 || i == 2 || i == 3 || i == 4);
        }
    }
}

/// What a category forfeits when crossed out is the most it can score:
/// on no five dice does it score more, and on some five dice it scores
/// exactly that much (Yatzy 50, a large straight 40, Sixes 30, Ones 5).
pub proof fn lemma_max_points_is_best_score(c: ScoreCategory, r: Seq<u8>)
    ensures
        r.len() == 5 && all_die_faces(r) ==> category_points(c, r) <= max_points_of(c),
        best_roll_for(c).len() == 5,
        all_die_faces(best_roll_for(c)),
        category_points(c, best_roll_for(c)) == max_points_of(c),
{
    if r.len() == 5 && all_die_faces(r) {
        lemma_max_points_bound(c, r);
    }
    lemma_best_roll_scores_max(c);
}

/// The advisor recommends an open category whose forfeited points are
/// least: no open category could score fewer points at most, and the
/// recommendation is missing only when no category is open.
pub proof fn lemma_recommendation_forfeits_least(entries: Seq<ScoreEntry>)
    requires
        entries.len() == 13,
    ensures
        cheapest_empty(entries) matches Some(c) ==> entries[c.idx()] is Empty && forall|d: ScoreCategory|
            #[trigger] entries[d.idx()] is Empty ==> max_points_of(c) <= max_points_of(d),
        cheapest_empty(entries) is None ==> forall|d: ScoreCategory| !(#[trigger] entries[d.idx()] is Empty),
{
    lemma_cheapest_upto(entries, 13);
    assert forall|d: ScoreCategory| #[trigger] entries[d.idx()] is Empty implies (cheapest_empty(entries) matches Some(
        c,
    ) && max_points_of(c) <= max_points_of(d)) by {
        crate::models::category::lemma_category_at_idx(d);
    }
}

/// What the scan for the cheapest open category has found among `0..i`.
proof fn lemma_cheapest_upto(entries: Seq<ScoreEntry>, i: int)
    requires
        0 <= i <= 13,
    ensures
        cheapest_empty_upto(entries, i) matches Some(c) ==> 0 <= c.idx() < i && entries[c.idx()] is Empty
            && forall|j: int| 0 <= j < i && #[trigger] entries[j] is Empty ==> max_points_of(c) <= max_points_of(
            category_at(j),
        ),
        cheapest_empty_upto(entries, i) is None ==> forall|j: int| 0 <= j < i ==> !(#[trigger] entries[j] is Empty),
    decreases i,
{
    if i > 0 {
        lemma_cheapest_upto(entries, i - 1);
        crate::models::category::lemma_idx_of_category_at(i - 1);
    }
}

} // verus!
