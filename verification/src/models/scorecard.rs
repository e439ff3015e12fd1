use crate::error::Result;
use crate::error::YatzyError;
use crate::models::category::ScoreCategory;
use crate::models::category::all_categories;
use crate::models::category::lemma_category_at_idx;
use crate::models::category::lemma_idx_of_category_at;
use crate::models::category::lemma_all_in_index_order;
use crate::models::category_section::CategorySection;
use crate::models::score::Score;
use crate::models::score_entry::ScoreEntry;
use crate::models::score_entry::entry_points;
use vstd::prelude::*;

verus! {

/// Sum of the points of the entries at positions `lo..hi`.
pub open spec fn points_in_range(entries: Seq<ScoreEntry>, lo: int, hi: int) -> nat
    decreases hi - lo,
{
    if hi <= lo {
        0
    } else {
        points_in_range(entries, lo, hi - 1) + entry_points(entries[hi - 1])
    }
}

/// Upper section subtotal: positions 0-5 (ones through sixes).
pub open spec fn upper_sum(entries: Seq<ScoreEntry>) -> nat {
    points_in_range(entries, 0, 6)
}

/// Lower section subtotal: positions 6-12 (three of a kind through chance).
pub open spec fn lower_sum(entries: Seq<ScoreEntry>) -> nat {
    points_in_range(entries, 6, 13)
}

/// Upper section bonus for a given subtotal: 35 points from 63 on.
pub open spec fn bonus_for(subtotal: nat) -> nat {
    if subtotal >= 63 {
        35
    } else {
        0
    }
}

/// Points still missing to reach the upper bonus threshold.
pub open spec fn bonus_remaining_for(subtotal: nat) -> nat {
    if subtotal >= 63 {
        0
    } else {
        (63 - subtotal) as nat
    }
}

/// Grand total: upper subtotal, upper bonus, lower subtotal and Yatzy bonus.
pub open spec fn grand_total_of(entries: Seq<ScoreEntry>, bonus: nat) -> nat {
    upper_sum(entries) + bonus_for(upper_sum(entries)) + lower_sum(entries) + bonus
}

/// The categories (in scorecard order) whose entries are still empty.
pub open spec fn empty_categories_of(entries: Seq<ScoreEntry>) -> Seq<ScoreCategory> {
    all_categories().filter(|c: ScoreCategory| entries[c.idx()] is Empty)
}

/// Every one of the 13 entries is used.
pub open spec fn all_used(entries: Seq<ScoreEntry>) -> bool {
    forall|i: int| 0 <= i < 13 ==> !(#[trigger] entries[i] is Empty)
}

/// A range sum grows with its upper end.
pub proof fn lemma_points_in_range_monotone(entries: Seq<ScoreEntry>, lo: int, mid: int, hi: int)
    requires
        lo <= mid <= hi,
    ensures
        points_in_range(entries, lo, mid) <= points_in_range(entries, lo, hi),
    decreases hi - mid,
{
    if mid < hi {
        lemma_points_in_range_monotone(entries, lo, mid, hi - 1);
    }
}

/// A range sum only depends on the entries inside the range.
pub proof fn lemma_points_in_range_frame(a: Seq<ScoreEntry>, b: Seq<ScoreEntry>, lo: int, hi: int)
    requires
        forall|i: int| lo <= i < hi ==> a[i] == b[i],
    ensures
        points_in_range(a, lo, hi) == points_in_range(b, lo, hi),
    decreases hi - lo,
{
    if lo < hi {
        lemma_points_in_range_frame(a, b, lo, hi - 1);
    }
}

/// Replacing one entry in range changes the range sum by the difference of
/// the two entries' points.
pub proof fn lemma_points_in_range_update(entries: Seq<ScoreEntry>, lo: int, hi: int, k: int, e: ScoreEntry)
    requires
        0 <= lo <= k < hi <= entries.len(),
    ensures
        points_in_range(entries.update(k, e), lo, hi) + entry_points(entries[k]) == points_in_range(
            entries,
            lo,
            hi,
        ) + entry_points(e),
    decreases hi - lo,
{
    if k < hi - 1 {
        lemma_points_in_range_update(entries, lo, hi - 1, k, e);
    } else {
        lemma_points_in_range_frame(entries.update(k, e), entries, lo, hi - 1);
    }
}

/// A range sum is unchanged by an update outside the range.
pub proof fn lemma_points_in_range_update_outside(
    entries: Seq<ScoreEntry>,
    lo: int,
    hi: int,
    k: int,
    e: ScoreEntry,
)
    requires
        0 <= k < entries.len(),
        0 <= lo,
        hi <= entries.len(),
        k < lo || hi <= k,
    ensures
        points_in_range(entries.update(k, e), lo, hi) == points_in_range(entries, lo, hi),
{
    lemma_points_in_range_frame(entries.update(k, e), entries, lo, hi);
}

/// The upper subtotal is the sum of the points of Ones through Sixes, and
/// the lower subtotal the sum of the points of the seven lower
/// categories; crossed-out and empty categories add nothing, and neither
/// subtotal counts a bonus. The grand total adds the upper bonus (35 from
/// an upper subtotal of 63 on) and the Yatzy bonus.
pub proof fn lemma_subtotals_by_category(entries: Seq<ScoreEntry>, bonus: nat)
    ensures
        upper_sum(entries) == entry_points(entries[ScoreCategory::Ones.idx()]) + entry_points(
            entries[ScoreCategory::Twos.idx()],
        ) + entry_points(entries[ScoreCategory::Threes.idx()]) + entry_points(
            entries[ScoreCategory::Fours.idx()],
        ) + entry_points(entries[ScoreCategory::Fives.idx()]) + entry_points(
            entries[ScoreCategory::Sixes.idx()],
        ),
        lower_sum(entries) == entry_points(entries[ScoreCategory::ThreeOfAKind.idx()]) + entry_points(
            entries[ScoreCategory::FourOfAKind.idx()],
        ) + entry_points(entries[ScoreCategory::FullHouse.idx()]) + entry_points(
            entries[ScoreCategory::SmallStraight.idx()],
        ) + entry_points(entries[ScoreCategory::LargeStraight.idx()]) + entry_points(
            entries[ScoreCategory::Yatzy.idx()],
        ) + entry_points(entries[ScoreCategory::Chance.idx()]),
        grand_total_of(entries, bonus) == upper_sum(entries) + (if upper_sum(entries) >= 63 {
            35int
        } else {
            0int
        }) + lower_sum(entries) + bonus,
{
    reveal_with_fuel(points_in_range, 8);
    assert(points_in_range(entries, 6, 6) == 0);
}

/// The upper bonus is reached exactly when no points remain missing for
/// it, and below the threshold the subtotal plus the missing points is
/// the threshold.
pub proof fn lemma_bonus_remaining(subtotal: nat)
    ensures
        bonus_remaining_for(subtotal) == 0 <==> bonus_for(subtotal) == 35,
        bonus_for(subtotal) == 0 ==> subtotal + bonus_remaining_for(subtotal) == 63,
{
}

/// A scorecard is complete exactly when no category is left empty.
pub proof fn lemma_complete_iff_no_empty_categories(entries: Seq<ScoreEntry>)
    requires
        entries.len() == 13,
    ensures
        all_used(entries) <==> empty_categories_of(entries).len() == 0,
{
    let cats = all_categories();
    let pred = |c: ScoreCategory| entries[c.idx()] is Empty;
    assert(empty_categories_of(entries) == cats.filter(pred));
    if all_used(entries) {
        if cats.filter(pred).len() > 0 {
            cats.lemma_filter_pred(pred, 0);
            let c = cats.filter(pred)[0];
            lemma_category_at_idx(c);
            assert(!(entries[c.idx()] is Empty));
        }
    } else {
        let i = choose|i: int| 0 <= i < 13 && !!(#[trigger] entries[i] is Empty);
        lemma_idx_of_category_at(i);
        assert(pred(cats[i]));
        cats.lemma_filter_contains(pred, i);
    }
}

/// Filling an empty category with a score: the category then holds that
/// score, and the grand total grows by at least the score (by more when
/// the fill reaches the upper bonus). Crossing an empty category out
/// leaves the grand total unchanged.
pub proof fn lemma_fill_raises_total(entries: Seq<ScoreEntry>, bonus: nat, category: ScoreCategory, score: Score)
    requires
        entries.len() == 13,
        entries[category.idx()] is Empty,
    ensures
        entry_points(entries.update(category.idx(), ScoreEntry::Filled(score))[category.idx()]) == score@,
        grand_total_of(entries.update(category.idx(), ScoreEntry::Filled(score)), bonus) >= grand_total_of(
            entries,
            bonus,
        ) + score@,
        grand_total_of(entries.update(category.idx(), ScoreEntry::CrossedOut), bonus) == grand_total_of(
            entries,
            bonus,
        ),
{
    let k = category.idx();
    let filled = entries.update(k, ScoreEntry::Filled(score));
    let crossed = entries.update(k, ScoreEntry::CrossedOut);
    if k < 6 {
        lemma_points_in_range_update(entries, 0, 6, k, ScoreEntry::Filled(score));
        lemma_points_in_range_update(entries, 0, 6, k, ScoreEntry::CrossedOut);
        lemma_points_in_range_update_outside(entries, 6, 13, k, ScoreEntry::Filled(score));
        lemma_points_in_range_update_outside(entries, 6, 13, k, ScoreEntry::CrossedOut);
    } else {
        lemma_points_in_range_update(entries, 6, 13, k, ScoreEntry::Filled(score));
        lemma_points_in_range_update(entries, 6, 13, k, ScoreEntry::CrossedOut);
        lemma_points_in_range_update_outside(entries, 0, 6, k, ScoreEntry::Filled(score));
        lemma_points_in_range_update_outside(entries, 0, 6, k, ScoreEntry::CrossedOut);
    }
}

/// A player's scorecard tracking all 13 Kniffel categories.
///
/// Each category can be in one of three states: empty, filled with a
/// score, or crossed out. The scorecard also tracks Yatzy bonus
/// points awarded for additional Yatzys rolled after the Yatzy
/// category has been filled with 50 points.
#[derive(Debug, Clone, PartialEq, Eq)]
pub struct Scorecard {
    /// The 13 category entries, indexed by `ScoreCategory::index()`.
    entries: [ScoreEntry; 13],
    /// Bonus points for additional Yatzys (100 per additional Yatzy).
    yatzy_bonus: Score,
}

impl Scorecard {
    /// The 13 entries in scorecard order.
    pub closed spec fn entries_of(&self) -> Seq<ScoreEntry> {
        self.entries@
    }

    /// The accumulated Yatzy bonus points.
    pub closed spec fn bonus_of(&self) -> nat {
        self.yatzy_bonus@ as nat
    }

    /// The model always has 13 entries, and the bonus fits a `u32`.
    pub proof fn lemma_wf(&self)
        ensures
            self.entries_of().len() == 13,
            self.bonus_of() <= u32::MAX,
    {
    }

    /// Create a new empty scorecard.
    pub fn new() -> (sc: Scorecard)
        ensures
            forall|i: int| 0 <= i < 13 ==> #[trigger] sc.entries_of()[i] is Empty,
            sc.bonus_of() == 0,
    {
        Scorecard { entries: [ScoreEntry::Empty; 13], yatzy_bonus: Score::zero() }
    }

    /// Enter a score into a category.
    ///
    /// Returns an error if the category is already filled or crossed out;
    /// the scorecard is then unchanged.
    pub fn enter(&mut self, category: ScoreCategory, score: Score) -> (r: Result<()>)
        ensures
            r is Err <==> !(old(self).entries_of()[category.idx()] is Empty),
            r is Err ==> *final(self) == *old(self),
            r matches Err(e) ==> e == YatzyError::CategoryAlreadyFilled(category),
            r is Ok ==> final(self).entries_of() == old(self).entries_of().update(
                category.idx(),
                ScoreEntry::Filled(score),
            ),
            r is Ok ==> final(self).bonus_of() == old(self).bonus_of(),
    {
        let idx = category.index();
        if self.entries[idx].is_used() {
            return Err(YatzyError::CategoryAlreadyFilled(category));
        }
        self.entries[idx] = ScoreEntry::Filled(score);
        Ok(())
    }

    /// Cross out a category (score 0).
    ///
    /// Returns an error if the category is already filled or crossed out;
    /// the scorecard is then unchanged.
    pub fn cross_out(&mut self, category: ScoreCategory) -> (r: Result<()>)
        ensures
            r is Err <==> !(old(self).entries_of()[category.idx()] is Empty),
            r is Err ==> *final(self) == *old(self),
            r matches Err(e) ==> e == YatzyError::CategoryAlreadyFilled(category),
            r is Ok ==> final(self).entries_of() == old(self).entries_of().update(
                category.idx(),
                ScoreEntry::CrossedOut,
            ),
            r is Ok ==> final(self).bonus_of() == old(self).bonus_of(),
    {
        let idx = category.index();
        if self.entries[idx].is_used() {
            return Err(YatzyError::CategoryAlreadyFilled(category));
        }
        self.entries[idx] = ScoreEntry::CrossedOut;
        Ok(())
    }

    /// Get the entry for a category.
    pub fn entry(&self, category: ScoreCategory) -> (e: ScoreEntry)
        ensures
            e == self.entries_of()[category.idx()],
    {
        self.entries[category.index()]
    }

    /// Get the score for a category, or zero if empty or crossed out.
    pub fn score(&self, category: ScoreCategory) -> (s: Score)
        ensures
            s@ == entry_points(self.entries_of()[category.idx()]),
    {
        self.entries[category.index()].score()
    }

    /// Returns true if the category has been filled or crossed out.
    pub fn is_filled(&self, category: ScoreCategory) -> (b: bool)
        ensures
            b <==> !(self.entries_of()[category.idx()] is Empty),
    {
        self.entries[category.index()].is_used()
    }

    /// Returns a list of all empty (available) categories, in scorecard order.
    pub fn empty_categories(&self) -> (cats: Vec<ScoreCategory>)
        ensures
            cats@ == empty_categories_of(self.entries_of()),
    {
        let ghost pred = |c: ScoreCategory| self.entries@[c.idx()] is Empty;
        let mut cats: Vec<ScoreCategory> = Vec::new();
        let mut i: usize = 0;
        proof {
            lemma_all_in_index_order();
        }
        while i < 13
            invariant
                i <= 13,
                ScoreCategory::ALL@ == all_categories(),
                pred == (|c: ScoreCategory| self.entries@[c.idx()] is Empty),
                cats@ == all_categories().take(i as int).filter(pred),
            decreases 13 - i,
        {
            let c = ScoreCategory::ALL[i];
            assert(all_categories().take(i as int + 1).drop_last() =~= all_categories().take(i as int));
            reveal_with_fuel(Seq::<_>::filter, 1);
            if self.entries[c.index()].is_empty() {
                cats.push(c);
            }
            i += 1;
        }
        assert(all_categories().take(13) =~= all_categories());
        cats
    }

    /// Sum of the points at positions `lo..hi`.
    fn points_between(&self, lo: usize, hi: usize) -> (total: u32)
        requires
            lo <= hi <= 13,
            points_in_range(self.entries_of(), lo as int, hi as int) <= u32::MAX,
        ensures
            total == points_in_range(self.entries_of(), lo as int, hi as int),
    {
        let mut total: u32 = 0;
        let mut i: usize = lo;
        while i < hi
            invariant
                lo <= i <= hi <= 13,
                points_in_range(self.entries@, lo as int, hi as int) <= u32::MAX,
                total == points_in_range(self.entries@, lo as int, i as int),
            decreases hi - i,
        {
            proof {
                lemma_points_in_range_monotone(self.entries@, lo as int, i as int + 1, hi as int);
            }
            total = total + self.entries[i].score().get();
            i += 1;
        }
        total
    }

    /// Upper section subtotal (sum of ones through sixes, without bonus).
    pub fn upper_subtotal(&self) -> (s: Score)
        requires
            upper_sum(self.entries_of()) <= u32::MAX,
        ensures
            s@ == upper_sum(self.entries_of()),
    {
        Score::new(self.points_between(0, 6))
    }

    /// Upper section bonus (35 points if the subtotal is at least 63).
    pub fn upper_bonus(&self) -> (s: Score)
        requires
            upper_sum(self.entries_of()) <= u32::MAX,
        ensures
            s@ == bonus_for(upper_sum(self.entries_of())),
    {
        if self.upper_subtotal().get() >= CategorySection::UPPER_BONUS_THRESHOLD {
            Score::new(CategorySection::UPPER_BONUS_POINTS)
        } else {
            Score::zero()
        }
    }

    /// Lower section subtotal (sum of all lower section categories).
    pub fn lower_subtotal(&self) -> (s: Score)
        requires
            lower_sum(self.entries_of()) <= u32::MAX,
        ensures
            s@ == lower_sum(self.entries_of()),
    {
        Score::new(self.points_between(6, 13))
    }

    /// Yatzy bonus points (100 per additional Yatzy).
    pub fn yatzy_bonus(&self) -> (s: Score)
        ensures
            s@ == self.bonus_of(),
    {
        self.yatzy_bonus
    }

    /// Add a Yatzy bonus (100 points). Called when a second Yatzy
    /// is rolled and the Yatzy category is already filled with 50.
    pub fn add_yatzy_bonus(&mut self)
        requires
            old(self).bonus_of() + 100 <= u32::MAX,
        ensures
            final(self).bonus_of() == old(self).bonus_of() + 100,
            final(self).entries_of() == old(self).entries_of(),
    {
        self.yatzy_bonus = self.yatzy_bonus.plus(Score::new(100));
    }

    /// Grand total including upper subtotal, upper bonus, lower subtotal,
    /// and Yatzy bonus.
    pub fn grand_total(&self) -> (s: Score)
        requires
            grand_total_of(self.entries_of(), self.bonus_of()) <= u32::MAX,
        ensures
            s@ == grand_total_of(self.entries_of(), self.bonus_of()),
    {
        let upper = self.upper_subtotal();
        let bonus = self.upper_bonus();
        let lower = self.lower_subtotal();
        upper.plus(bonus).plus(lower).plus(self.yatzy_bonus)
    }

    /// Check if all 13 categories are filled (game over for this player).
    pub fn is_complete(&self) -> (b: bool)
        ensures
            b <==> all_used(self.entries_of()),
    {
        let mut i: usize = 0;
        while i < 13
            invariant
                i <= 13,
                forall|j: int| 0 <= j < i ==> !(#[trigger] self.entries@[j] is Empty),
            decreases 13 - i,
        {
            if self.entries[i].is_empty() {
                return false;
            }
            i += 1;
        }
        true
    }

    /// Points still needed to reach the upper section bonus threshold.
    /// Returns 0 if the threshold has been reached.
    pub fn upper_bonus_remaining(&self) -> (s: Score)
        requires
            upper_sum(self.entries_of()) <= u32::MAX,
        ensures
            s@ == bonus_remaining_for(upper_sum(self.entries_of())),
    {
        let subtotal = self.upper_subtotal().get();
        if subtotal >= CategorySection::UPPER_BONUS_THRESHOLD {
            Score::zero()
        } else {
            Score::new(CategorySection::UPPER_BONUS_THRESHOLD - subtotal)
        }
    }
}

impl Default for Scorecard {
    fn default() -> (sc: Self)
        ensures
            forall|i: int| 0 <= i < 13 ==> #[trigger] sc.entries_of()[i] is Empty,
            sc.bonus_of() == 0,
    {
        Self::new()
    }
}

} // verus!
