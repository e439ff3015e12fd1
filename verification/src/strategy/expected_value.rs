use crate::models::category::ScoreCategory;
use crate::models::category::all_categories;
use crate::models::category::category_at;
use crate::models::category::lemma_all_in_index_order;
use crate::models::category::lemma_category_at_idx;
use crate::models::category::lemma_idx_of_category_at;
use crate::models::dice_set::DiceSet;
use crate::models::hold_mask::HoldMask;
use crate::models::hold_mask::count_true;
use crate::models::roll_count::RollCount;
use crate::models::score::Score;
use crate::models::score_entry::ScoreEntry;
use crate::models::scorecard::Scorecard;
use crate::rules::scoring::calculate_score;
use crate::rules::scoring::category_points;
use crate::strategy::outcomes::RollMeasure;
use crate::strategy::outcomes::best_open_points_upto;
use crate::strategy::outcomes::enumerate_recursive;
use crate::strategy::outcomes::lemma_category_points_le_50;
use crate::strategy::outcomes::lemma_pow5_le_pow6;
use crate::strategy::outcomes::lemma_pow6_small;
use crate::strategy::outcomes::lemma_total_bound;
use crate::strategy::outcomes::pow6;
use crate::strategy::outcomes::total_over_outcomes;
use crate::strategy::probability::held_dice_values;
use crate::strategy::probability::held_values;
use crate::strategy::probability::total_outcomes;
use vstd::prelude::*;

verus! {

/// Which categories of a scorecard are still open (empty).
pub open spec fn open_of(entries: Seq<ScoreEntry>) -> Seq<bool> {
    Seq::new(13, |i: int| entries[i] is Empty)
}

/// The first open category with the most points among positions `0..i`.
pub open spec fn best_choice_upto(open: Seq<bool>, r: Seq<u8>, i: int) -> Option<(ScoreCategory, nat)>
    decreases i,
{
    if i <= 0 {
        None
    } else {
        let prev = best_choice_upto(open, r, i - 1);
        let here = category_points(category_at(i - 1), r);
        match prev {
            None => if open[i - 1] {
                Some((category_at(i - 1), here))
            } else {
                None
            },
            Some(p) => if open[i - 1] && here > p.1 {
                Some((category_at(i - 1), here))
            } else {
                prev
            },
        }
    }
}

/// The open category (first in scorecard order among equals) in which the
/// dice score the most points, with those points; `(Chance, 0)` when no
/// category is open.
pub open spec fn best_choice(open: Seq<bool>, r: Seq<u8>) -> (ScoreCategory, nat) {
    match best_choice_upto(open, r, 13) {
        Some(p) => p,
        None => (ScoreCategory::Chance, 0),
    }
}

/// The hold flags encoded by mask number `m`: bit `i` holds slot `i`.
pub open spec fn mask_flags(m: int) -> Seq<bool> {
    seq![m % 2 == 1, (m / 2) % 2 == 1, (m / 4) % 2 == 1, (m / 8) % 2 == 1, (m / 16) % 2 == 1]
}

/// Sum, over every outcome of re-rolling the dice not held by mask `m`,
/// of the best open score of the resulting dice.
pub open spec fn mask_total(dice: Seq<u8>, open: Seq<bool>, m: int) -> nat {
    total_over_outcomes(
        held_values(dice, mask_flags(m)),
        (5 - count_true(mask_flags(m))) as nat,
        RollMeasure::BestOpenScore(open_array(open)),
    )
}

/// The open flags as the array the measure carries.
pub open spec fn open_array(open: Seq<bool>) -> [bool; 13] {
    choose|a: [bool; 13]| a@ == open
}

/// An array of flags is the array of its own view.
pub proof fn lemma_open_array(a: [bool; 13])
    ensures
        open_array(a@) == a,
{
    let b = open_array(a@);
    assert(b@ == a@);
    assert(b =~= a);
}

/// Number of outcomes of re-rolling the dice not held by mask `m`.
pub open spec fn mask_outcomes(m: int) -> nat {
    pow6((5 - count_true(mask_flags(m))) as nat)
}

/// The mask among `0..i` with the highest expected best score (the
/// first one among equals).
pub open spec fn best_mask_upto(dice: Seq<u8>, open: Seq<bool>, i: int) -> int
    decreases i,
{
    if i <= 1 {
        0
    } else {
        let b = best_mask_upto(dice, open, i - 1);
        if mask_total(dice, open, i - 1) * mask_outcomes(b) > mask_total(dice, open, b) * mask_outcomes(
            i - 1,
        ) {
            i - 1
        } else {
            b
        }
    }
}

/// The hold mask with the highest expected best score after one re-roll.
pub open spec fn best_mask(dice: Seq<u8>, open: Seq<bool>) -> int {
    best_mask_upto(dice, open, 32)
}

/// What the scan for the best category has found among positions `0..i`.
proof fn lemma_best_choice_upto(open: Seq<bool>, r: Seq<u8>, i: int)
    requires
        0 <= i <= 13,
    ensures
        best_choice_upto(open, r, i) is None <==> (forall|j: int| 0 <= j < i ==> !#[trigger] open[j]),
        best_choice_upto(open, r, i) matches Some(p) ==> {
            &&& 0 <= p.0.idx() < i
            &&& open[p.0.idx()]
            &&& p.1 == category_points(p.0, r)
            &&& forall|j: int|
                0 <= j < i && #[trigger] open[j] ==> category_points(category_at(j), r) <= p.1
        },
    decreases i,
{
    if i > 0 {
        lemma_best_choice_upto(open, r, i - 1);
        lemma_idx_of_category_at(i - 1);
    }
}

/// The recommended category is the best open one: when any category is
/// open, the recommendation is open and its points are what the dice
/// score there, and no open category scores more; when none is open it is
/// `Chance` with 0 points.
pub proof fn lemma_best_choice_optimal(open: Seq<bool>, r: Seq<u8>)
    ensures
        (exists|j: int| 0 <= j < 13 && #[trigger] open[j]) ==> open[best_choice(open, r).0.idx()]
            && best_choice(open, r).1 == category_points(best_choice(open, r).0, r),
        forall|c: ScoreCategory| #[trigger] open[c.idx()] ==> category_points(c, r) <= best_choice(open, r).1,
        (forall|j: int| 0 <= j < 13 ==> !#[trigger] open[j]) ==> best_choice(open, r) == (
            ScoreCategory::Chance,
            0nat,
        ),
{
    lemma_best_choice_upto(open, r, 13);
    assert forall|c: ScoreCategory| #[trigger] open[c.idx()] implies category_points(c, r) <= best_choice(
        open,
        r,
    ).1 by {
        lemma_category_at_idx(c);
    }
}

/// Comparing expected values as fractions is transitive.
proof fn lemma_fraction_le_trans(tm: nat, om: nat, tb: nat, ob: nat, tc: nat, oc: nat)
    requires
        om > 0,
        ob > 0,
        oc > 0,
        tm * ob <= tb * om,
        tb * oc <= tc * ob,
    ensures
        tm * oc <= tc * om,
{
    assert(tm * ob * oc <= tb * om * oc) by (nonlinear_arith)
        requires
            tm * ob <= tb * om,
    ;
    assert(tb * oc * om <= tc * ob * om) by (nonlinear_arith)
        requires
            tb * oc <= tc * ob,
    ;
    assert(tb * om * oc == tb * oc * om) by (nonlinear_arith);
    assert(ob * (tm * oc) <= ob * (tc * om)) by (nonlinear_arith)
        requires
            tm * ob * oc <= tc * ob * om,
    ;
    assert(tm * oc <= tc * om) by (nonlinear_arith)
        requires
            ob > 0,
            ob * (tm * oc) <= ob * (tc * om),
    ;
}

/// Every mask has at least one outcome.
proof fn lemma_mask_outcomes_pos(m: int)
    ensures
        mask_outcomes(m) >= 1,
{
    lemma_pow5_le_pow6((5 - count_true(mask_flags(m))) as nat);
}

/// The best mask among `0..i` is at least as good as each of them.
proof fn lemma_best_mask_upto(dice: Seq<u8>, open: Seq<bool>, i: int)
    requires
        1 <= i <= 32,
    ensures
        0 <= best_mask_upto(dice, open, i) < i,
        forall|m: int|
            0 <= m < i ==> #[trigger] mask_total(dice, open, m) * mask_outcomes(best_mask_upto(dice, open, i))
                <= mask_total(dice, open, best_mask_upto(dice, open, i)) * mask_outcomes(m),
    decreases i,
{
    if i > 1 {
        lemma_best_mask_upto(dice, open, i - 1);
        let b = best_mask_upto(dice, open, i - 1);
        let c = i - 1;
        lemma_mask_outcomes_pos(b);
        lemma_mask_outcomes_pos(c);
        if mask_total(dice, open, c) * mask_outcomes(b) > mask_total(dice, open, b) * mask_outcomes(c) {
            assert forall|m: int| 0 <= m < i implies #[trigger] mask_total(dice, open, m) * mask_outcomes(c)
                <= mask_total(dice, open, c) * mask_outcomes(m) by {
                if m < c {
                    lemma_mask_outcomes_pos(m);
                    lemma_fraction_le_trans(
                        mask_total(dice, open, m),
                        mask_outcomes(m),
                        mask_total(dice, open, b),
                        mask_outcomes(b),
                        mask_total(dice, open, c),
                        mask_outcomes(c),
                    );
                }
            }
        }
    }
}

/// The recommended hold mask is optimal: no hold mask has a higher
/// expected best open score after one re-roll (expected values compared
/// as exact fractions, total points over outcomes).
pub proof fn lemma_best_mask_optimal(dice: Seq<u8>, open: Seq<bool>, m: int)
    requires
        0 <= m < 32,
    ensures
        0 <= best_mask(dice, open) < 32,
        mask_total(dice, open, m) * mask_outcomes(best_mask(dice, open)) <= mask_total(
            dice,
            open,
            best_mask(dice, open),
        ) * mask_outcomes(m),
{
    lemma_best_mask_upto(dice, open, 32);
}

} // verus!

verus! {

/// A scoring option: a category and the points the current dice score in it.
#[derive(Debug, Clone, Copy, PartialEq, Eq)]
pub struct CategoryChoice {
    category: ScoreCategory,
    score: Score,
}

impl CategoryChoice {
    /// The category of the choice.
    pub closed spec fn category_of(&self) -> ScoreCategory {
        self.category
    }

    /// The points of the choice.
    pub closed spec fn score_of(&self) -> Score {
        self.score
    }

    /// The category to enter.
    pub fn category(&self) -> (c: ScoreCategory)
        ensures
            c == self.category_of(),
    {
        self.category
    }

    /// The points the dice score in that category.
    pub fn score(&self) -> (s: Score)
        ensures
            s == self.score_of(),
    {
        self.score
    }
}

/// An expected value, kept exact as total points over a number of
/// equally likely outcomes.
#[derive(Debug, Clone, Copy, PartialEq, Eq)]
pub struct ExpectedValue {
    total_points: u64,
    outcomes: u64,
}

impl ExpectedValue {
    /// The total points over all outcomes.
    pub closed spec fn total_of(&self) -> nat {
        self.total_points as nat
    }

    /// The number of outcomes.
    pub closed spec fn outcomes_of(&self) -> nat {
        self.outcomes as nat
    }

    /// The total points over all outcomes.
    pub fn total_points(&self) -> (t: u64)
        ensures
            t == self.total_of(),
    {
        self.total_points
    }

    /// The number of equally likely outcomes.
    pub fn outcomes(&self) -> (n: u64)
        ensures
            n == self.outcomes_of(),
    {
        self.outcomes
    }
}

/// The recommended dice to hold, with the expected best score of the re-roll.
#[derive(Debug, Clone, Copy, PartialEq, Eq)]
pub struct HoldDecision {
    holds: HoldMask,
    expected_value: ExpectedValue,
}

impl HoldDecision {
    /// The recommended hold mask.
    pub closed spec fn holds_of(&self) -> HoldMask {
        self.holds
    }

    /// The expected value of re-rolling with that mask.
    pub closed spec fn value_of(&self) -> ExpectedValue {
        self.expected_value
    }

    /// The recommended hold mask.
    pub fn holds(&self) -> (h: HoldMask)
        ensures
            h == self.holds_of(),
    {
        self.holds
    }

    /// The expected best score after re-rolling with that mask.
    pub fn expected_value(&self) -> (v: ExpectedValue)
        ensures
            v == self.value_of(),
    {
        self.expected_value
    }
}

/// Which categories of the scorecard are still open.
pub fn open_categories(scorecard: &Scorecard) -> (open: [bool; 13])
    ensures
        open@ == open_of(scorecard.entries_of()),
{
    proof {
        lemma_all_in_index_order();
        scorecard.lemma_wf();
    }
    let mut open = [false; 13];
    let mut i: usize = 0;
    while i < 13
        invariant
            i <= 13,
            ScoreCategory::ALL@ == all_categories(),
            forall|j: int| 0 <= j < i ==> open@[j] == (scorecard.entries_of()[j] is Empty),
        decreases 13 - i,
    {
        let filled = scorecard.is_filled(ScoreCategory::ALL[i]);
        open[i] = !filled;
        i += 1;
    }
    assert(open@ =~= open_of(scorecard.entries_of()));
    open
}

/// The open category in which the dice score the most points (the first
/// in scorecard order among equals); `Chance` with 0 points when the
/// scorecard is complete.
pub fn best_category_choice(dice: &DiceSet, scorecard: &Scorecard) -> (choice: CategoryChoice)
    ensures
        choice.category_of() == best_choice(open_of(scorecard.entries_of()), dice@).0,
        choice.score_of()@ == best_choice(open_of(scorecard.entries_of()), dice@).1,
        choice.score_of()@ <= 50,
{
    let open = open_categories(scorecard);
    proof {
        lemma_all_in_index_order();
        use_type_invariant(dice);
    }
    let mut found = false;
    let mut best_category = ScoreCategory::Chance;
    let mut best_points: u32 = 0;
    let mut i: usize = 0;
    while i < 13
        invariant
            i <= 13,
            ScoreCategory::ALL@ == all_categories(),
            dice@.len() == 5,
            crate::models::dice_set::all_die_faces(dice@),
            open@ == open_of(scorecard.entries_of()),
            match best_choice_upto(open@, dice@, i as int) {
                None => !found && best_category == ScoreCategory::Chance && best_points == 0,
                Some(p) => found && best_category == p.0 && best_points == p.1,
            },
            best_points <= 50,
        decreases 13 - i,
    {
        let c = ScoreCategory::ALL[i];
        let here = calculate_score(c, dice).get();
        proof {
            lemma_category_points_le_50(c, dice@);
        }
        if open[i] && (!found || here > best_points) {
            found = true;
            best_category = c;
            best_points = here;
        }
        i += 1;
    }
    CategoryChoice { category: best_category, score: Score::new(best_points) }
}

/// The hold flags of mask number `m`.
fn mask_hold(m: usize) -> (holds: HoldMask)
    ensures
        holds@ == mask_flags(m as int),
{
    let flags = [m % 2 == 1, (m / 2) % 2 == 1, (m / 4) % 2 == 1, (m / 8) % 2 == 1, (m / 16) % 2 == 1];
    let holds = HoldMask::from_flags(flags);
    assert(holds@ =~= mask_flags(m as int));
    holds
}

/// The total best open score over all outcomes of re-rolling with mask `m`,
/// and the number of outcomes.
fn mask_expected(dice: &DiceSet, open: &[bool; 13], m: usize) -> (r: (u64, u64))
    ensures
        r.0 == mask_total(dice@, open@, m as int),
        r.1 == mask_outcomes(m as int),
        1 <= r.1 <= 7776,
        r.0 <= 50 * r.1,
{
    let holds = mask_hold(m);
    let mut held = held_dice_values(dice, holds);
    let k = holds.reroll_count();
    proof {
        lemma_open_array(*open);
        lemma_pow6_small(k as nat);
        lemma_total_bound(held@, k as nat, RollMeasure::BestOpenScore(*open));
    }
    let total = enumerate_recursive(&RollMeasure::BestOpenScore(*open), &mut held, k);
    let outcomes = total_outcomes(k);
    (total, outcomes as u64)
}

/// The hold mask with the highest expected best open score after one
/// re-roll (the first mask among equals, masks numbered by their bits).
pub fn best_hold_decision(dice: &DiceSet, scorecard: &Scorecard, _rolls_used: RollCount) -> (decision:
    HoldDecision)
    ensures
        decision.holds_of()@ == mask_flags(best_mask(dice@, open_of(scorecard.entries_of()))),
        decision.value_of().total_of() == mask_total(
            dice@,
            open_of(scorecard.entries_of()),
            best_mask(dice@, open_of(scorecard.entries_of())),
        ),
        decision.value_of().outcomes_of() == mask_outcomes(
            best_mask(dice@, open_of(scorecard.entries_of())),
        ),
        1 <= decision.value_of().outcomes_of() <= 7776,
        decision.value_of().total_of() <= 50 * decision.value_of().outcomes_of(),
{
    let open = open_categories(scorecard);
    let (t0, o0) = mask_expected(dice, &open, 0);
    let mut best: usize = 0;
    let mut best_total = t0;
    let mut best_outcomes = o0;
    let mut m: usize = 1;
    while m < 32
        invariant
            1 <= m <= 32,
            best < m,
            best as int == best_mask_upto(dice@, open@, m as int),
            best_total == mask_total(dice@, open@, best as int),
            best_outcomes == mask_outcomes(best as int),
            1 <= best_outcomes <= 7776,
            best_total <= 50 * best_outcomes,
        decreases 32 - m,
    {
        let (t, o) = mask_expected(dice, &open, m);
        proof {
            assert(t * best_outcomes <= 50 * 7776 * 7776) by (nonlinear_arith)
                requires
                    t <= 50 * o,
                    o <= 7776,
                    best_outcomes <= 7776,
            ;
            assert(best_total * o <= 50 * 7776 * 7776) by (nonlinear_arith)
                requires
                    best_total <= 50 * best_outcomes,
                    o <= 7776,
                    best_outcomes <= 7776,
            ;
        }
        if t * best_outcomes > best_total * o {
            best = m;
            best_total = t;
            best_outcomes = o;
        }
        m += 1;
    }
    HoldDecision {
        holds: mask_hold(best),
        expected_value: ExpectedValue { total_points: best_total, outcomes: best_outcomes },
    }
}

/// The total best open score over every outcome of re-rolling the dice not
/// held by `holds`, and the number of those outcomes.
pub open spec fn hold_total(dice: Seq<u8>, open: Seq<bool>, holds: Seq<bool>) -> nat {
    total_over_outcomes(
        held_values(dice, holds),
        (5 - count_true(holds)) as nat,
        RollMeasure::BestOpenScore(open_array(open)),
    )
}

/// The number of outcomes of re-rolling the dice not held by `holds`.
pub open spec fn hold_outcomes(holds: Seq<bool>) -> nat {
    pow6((5 - count_true(holds)) as nat)
}

/// The mask number of a choice of held dice: bit `i` set when slot `i` is held.
pub open spec fn mask_of(holds: Seq<bool>) -> int {
    (if holds[0] { 1int } else { 0 }) + (if holds[1] { 2int } else { 0 }) + (if holds[2] { 4int } else { 0 })
        + (if holds[3] { 8int } else { 0 }) + (if holds[4] { 16int } else { 0 })
}

/// Every choice of held dice among the five slots is the hold of a mask
/// number from 0 to 31: the one whose bit `i` is set when slot `i` is held.
pub proof fn lemma_every_hold_is_a_mask(holds: Seq<bool>)
    requires
        holds.len() == 5,
    ensures
        0 <= mask_of(holds) < 32,
        mask_flags(mask_of(holds)) == holds,
{
    let m = mask_of(holds);
    assert(m % 2 == 1 <==> holds[0]);
    assert((m / 2) % 2 == 1 <==> holds[1]);
    assert((m / 4) % 2 == 1 <==> holds[2]);
    assert((m / 8) % 2 == 1 <==> holds[3]);
    assert((m / 16) % 2 == 1 <==> holds[4]);
    assert(mask_flags(m) =~= holds);
}

/// The recommended hold is at least as good as every possible hold of the
/// five dice: no choice of held dice has a higher expected best open score
/// after one re-roll (expected values compared as exact fractions).
pub proof fn lemma_best_hold_beats_every_hold(dice: Seq<u8>, open: Seq<bool>, holds: Seq<bool>)
    requires
        holds.len() == 5,
    ensures
        hold_total(dice, open, holds) * hold_outcomes(mask_flags(best_mask(dice, open))) <= hold_total(
            dice,
            open,
            mask_flags(best_mask(dice, open)),
        ) * hold_outcomes(holds),
{
    lemma_every_hold_is_a_mask(holds);
    lemma_best_mask_optimal(dice, open, mask_of(holds));
}

} // verus!
