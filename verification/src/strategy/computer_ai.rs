use crate::error::Result;
use crate::models::category::ScoreCategory;
use crate::models::dice_set::DiceSet;
use crate::models::hold_mask::HoldMask;
use crate::models::roll_count::RollCount;
use crate::models::score::Score;
use crate::models::score_entry::ScoreEntry;
use crate::models::scorecard::Scorecard;
use crate::rules::cross_out::CrossOutAdvisor;
use crate::rules::cross_out::cheapest_empty;
use crate::rules::scoring::category_points;
use crate::strategy::expected_value::CategoryChoice;
use crate::strategy::expected_value::best_category_choice;
use crate::strategy::expected_value::best_choice;
use crate::strategy::expected_value::best_choice_upto;
use crate::strategy::expected_value::best_hold_decision;
use crate::strategy::expected_value::best_mask;
use crate::strategy::expected_value::mask_flags;
use crate::strategy::expected_value::mask_outcomes;
use crate::strategy::expected_value::mask_total;
use crate::strategy::expected_value::lemma_best_choice_optimal;
use crate::strategy::expected_value::lemma_best_mask_optimal;
use crate::strategy::expected_value::open_array;
use crate::strategy::expected_value::open_of;
use crate::strategy::outcomes::best_open_points_upto;
use crate::models::hold_mask::count_true;
use crate::models::hold_mask::lemma_count_true_le_len;
use crate::strategy::probability::held_values_upto;
use vstd::prelude::*;

verus! {

/// A decision made by the computer AI for the current turn.
///
/// The AI decides between re-rolling (with specific holds) or
/// entering a score in a category.
#[derive(Debug, Clone, PartialEq, Eq)]
pub enum AiDecision {
    /// Re-roll the dice with the given hold mask.
    RollAgain {
        /// Which dice to hold for the re-roll.
        holds: HoldMask,
    },
    /// Enter a score in the given category.
    EnterScore {
        /// The category to enter the score in.
        category: ScoreCategory,
        /// The score to enter.
        score: Score,
    },
    /// Cross out a category (no valid score available).
    CrossOut {
        /// The category to cross out.
        category: ScoreCategory,
    },
}

/// The decision once no roll is left: enter the best open category if it
/// scores; otherwise cross out the advisor's category; on a complete
/// scorecard, enter the best choice with 0 points.
pub open spec fn is_scoring_decision(d: AiDecision, dice: Seq<u8>, entries: Seq<ScoreEntry>) -> bool {
    let best = best_choice(open_of(entries), dice);
    if best.1 > 0 {
        d matches AiDecision::EnterScore { category, score } && category == best.0 && score@ == best.1
    } else {
        match cheapest_empty(entries) {
            Some(c) => d == AiDecision::CrossOut { category: c },
            None => d matches AiDecision::EnterScore { category, score } && category == best.0 && score@
                == 0,
        }
    }
}

/// The AI's decision: with rolls left, enter the best open category when
/// its points are at least the expected best score of the best re-roll,
/// else re-roll holding the dice of that re-roll; with no roll left, the
/// scoring decision.
pub open spec fn is_ai_decision(d: AiDecision, dice: Seq<u8>, entries: Seq<ScoreEntry>, rolls_used: u8) -> bool {
    if rolls_used == 3 {
        is_scoring_decision(d, dice, entries)
    } else {
        let open = open_of(entries);
        let best = best_choice(open, dice);
        let m = best_mask(dice, open);
        if best.1 * mask_outcomes(m) >= mask_total(dice, open, m) {
            d matches AiDecision::EnterScore { category, score } && category == best.0 && score@ == best.1
        } else {
            d matches AiDecision::RollAgain { holds } && holds@ == mask_flags(m)
        }
    }
}

/// The computer opponent decision engine.
///
/// Uses expected value calculations to make its decisions:
/// - Whether to re-roll or enter a score
/// - Which dice to hold when re-rolling
/// - Which category to enter or cross out
pub struct ComputerAi {
    /// The cross-out advisor for choosing categories to cross out.
    advisor: CrossOutAdvisor,
}

impl ComputerAi {
    /// Create a new computer AI.
    pub fn new() -> (ai: ComputerAi) {
        Self { advisor: CrossOutAdvisor::new() }
    }

    /// Decide the best action for the current game state.
    ///
    /// Parameters:
    /// - `dice`: The current dice values
    /// - `scorecard`: The current player's scorecard
    /// - `rolls_used`: How many rolls have been used this turn
    pub fn decide(&self, dice: &DiceSet, scorecard: &Scorecard, rolls_used: RollCount) -> (r: Result<
        AiDecision,
    >)
        ensures
            r matches Ok(d) && is_ai_decision(d, dice@, scorecard.entries_of(), rolls_used@),
    {
        if rolls_used.is_exhausted() {
            return Ok(self.decide_scoring(dice, scorecard));
        }
        let current_best = best_category_choice(dice, scorecard);
        let hold_decision = best_hold_decision(dice, scorecard, rolls_used);
        let value = hold_decision.expected_value();
        let points = current_best.score().get() as u64;
        proof {
            assert(points * value.outcomes_of() <= 50 * 7776 * 7776) by (nonlinear_arith)
                requires
                    points <= 50,
                    value.outcomes_of() <= 7776,
            ;
        }
        if points * value.outcomes() >= value.total_points() {
            return Ok(
                AiDecision::EnterScore { category: current_best.category(), score: current_best.score() },
            );
        }
        Ok(AiDecision::RollAgain { holds: hold_decision.holds() })
    }

    /// Decide which category to enter or cross out when rolls are exhausted.
    fn decide_scoring(&self, dice: &DiceSet, scorecard: &Scorecard) -> (d: AiDecision)
        ensures
            is_scoring_decision(d, dice@, scorecard.entries_of()),
    {
        let best = best_category_choice(dice, scorecard);
        if best.score().get() > 0 {
            AiDecision::EnterScore { category: best.category(), score: best.score() }
        } else {
            match self.advisor.recommend_voluntary(scorecard, dice) {
                Some(rec) => AiDecision::CrossOut { category: rec.category() },
                None => AiDecision::EnterScore { category: best.category(), score: Score::zero() },
            }
        }
    }

    /// Get a hint for a human player (best category to enter).
    ///
    /// This is used by the hint panel UI to show strategy suggestions.
    pub fn hint_best_category(&self, dice: &DiceSet, scorecard: &Scorecard) -> (choice: CategoryChoice)
        ensures
            choice.category_of() == best_choice(open_of(scorecard.entries_of()), dice@).0,
            choice.score_of()@ == best_choice(open_of(scorecard.entries_of()), dice@).1,
    {
        best_category_choice(dice, scorecard)
    }

    /// Get a hint for a human player (best hold decision).
    ///
    /// Returns the recommended hold mask for re-rolling.
    pub fn hint_best_holds(&self, dice: &DiceSet, scorecard: &Scorecard, rolls_used: RollCount) -> (r:
        Result<HoldMask>)
        ensures
            r matches Ok(h) && h@ == mask_flags(best_mask(dice@, open_of(scorecard.entries_of()))),
    {
        let decision = best_hold_decision(dice, scorecard, rolls_used);
        Ok(decision.holds())
    }
}

impl Default for ComputerAi {
    fn default() -> (ai: Self) {
        Self::new()
    }
}


/// The best open points found by a scan equal the points of the best
/// choice it finds (0 when none is open).
proof fn lemma_best_points_match(open: Seq<bool>, r: Seq<u8>, i: int)
    requires
        0 <= i <= 13,
    ensures
        best_open_points_upto(open, r, i) == match best_choice_upto(open, r, i) {
            Some(p) => p.1,
            None => 0,
        },
    decreases i,
{
    if i > 0 {
        lemma_best_points_match(open, r, i - 1);
    }
}

/// Flags of which every one is set.
proof fn lemma_count_true_full(s: Seq<bool>)
    requires
        count_true(s) == s.len(),
    ensures
        forall|i: int| 0 <= i < s.len() ==> #[trigger] s[i],
    decreases s.len(),
{
    if s.len() > 0 {
        lemma_count_true_le_len(s.drop_last());
        lemma_count_true_full(s.drop_last());
        assert forall|i: int| 0 <= i < s.len() implies #[trigger] s[i] by {
            if i < s.len() - 1 {
                assert(s.drop_last()[i] == s[i]);
            }
        }
    }
}

/// When the computer re-rolls, it never holds all five dice: holding
/// every die keeps exactly the best score it can already enter, and then
/// it enters that score instead.
pub proof fn lemma_reroll_never_holds_all(d: AiDecision, dice: Seq<u8>, entries: Seq<ScoreEntry>, rolls_used: u8)
    requires
        dice.len() == 5,
        is_ai_decision(d, dice, entries, rolls_used),
    ensures
        d matches AiDecision::RollAgain { holds } ==> count_true(holds@) < 5,
{
    if let AiDecision::RollAgain { holds } = d {
        let open = open_of(entries);
        let m = best_mask(dice, open);
        let flags = mask_flags(m);
        lemma_count_true_le_len(flags);
        if count_true(flags) == 5 {
            lemma_count_true_full(flags);
            reveal_with_fuel(held_values_upto, 6);
            assert(held_values_upto(dice, flags, 5) =~= dice);
            let a: [bool; 13] = [
                open[0],
                open[1],
                open[2],
                open[3],
                open[4],
                open[5],
                open[6],
                open[7],
                open[8],
                open[9],
                open[10],
                open[11],
                open[12],
            ];
            assert(a@ =~= open);
            assert(open_array(open)@ == open);
            lemma_best_points_match(open, dice, 13);
            assert(mask_total(dice, open, m) == best_choice(open, dice).1);
            let points = best_choice(open, dice).1;
            let outcomes = mask_outcomes(m);
            assert(points * outcomes == points) by (nonlinear_arith)
                requires
                    outcomes == 1,
            ;
        }
    }
}


/// The computer crosses a category out only when no roll is left and no
/// open category scores any point with the dice.
pub proof fn lemma_crosses_out_only_without_points(
    d: AiDecision,
    dice: Seq<u8>,
    entries: Seq<ScoreEntry>,
    rolls_used: u8,
)
    requires
        is_ai_decision(d, dice, entries, rolls_used),
    ensures
        d is CrossOut ==> rolls_used == 3 && forall|c: ScoreCategory|
            #[trigger] open_of(entries)[c.idx()] ==> category_points(c, dice) == 0,
{
    lemma_best_choice_optimal(open_of(entries), dice);
}

/// With rolls left, the computer enters a score only when no re-roll is
/// expected to do better: for every hold mask, the points it enters are at
/// least the expected best score after re-rolling with that mask (compared
/// as exact fractions, points times outcomes against the total). It
/// re-rolls only when the re-roll it holds for is expected to beat the
/// points it could enter now.
pub proof fn lemma_decision_compares_expected_values(
    d: AiDecision,
    dice: Seq<u8>,
    entries: Seq<ScoreEntry>,
    rolls_used: u8,
)
    requires
        is_ai_decision(d, dice, entries, rolls_used),
        rolls_used != 3,
    ensures
        d matches AiDecision::EnterScore { category, score } ==> forall|m: int|
            0 <= m < 32 ==> #[trigger] mask_total(dice, open_of(entries), m) <= score@ * mask_outcomes(m),
        d matches AiDecision::RollAgain { holds } ==> holds@ == mask_flags(best_mask(dice, open_of(entries)))
            && best_choice(open_of(entries), dice).1 * mask_outcomes(best_mask(dice, open_of(entries)))
            < mask_total(dice, open_of(entries), best_mask(dice, open_of(entries))),
        !(d is CrossOut),
{
    let open = open_of(entries);
    let b = best_mask(dice, open);
    if let AiDecision::EnterScore { category, score } = d {
        assert forall|m: int| 0 <= m < 32 implies #[trigger] mask_total(dice, open, m) <= score@ * mask_outcomes(
            m,
        ) by {
            lemma_best_mask_optimal(dice, open, m);
            lemma_mask_outcomes_positive(m);
            lemma_mask_outcomes_positive(b);
            let p = score@ as int;
            let tb = mask_total(dice, open, b) as int;
            let ob = mask_outcomes(b) as int;
            let tm = mask_total(dice, open, m) as int;
            let om = mask_outcomes(m) as int;
            assert(tm <= p * om) by (nonlinear_arith)
                requires
                    tb <= p * ob,
                    tm * ob <= tb * om,
                    ob > 0,
                    om > 0,
                    p >= 0,
            ;
        }
    }
}

/// Every mask has at least one outcome.
proof fn lemma_mask_outcomes_positive(m: int)
    ensures
        mask_outcomes(m) >= 1,
{
    crate::strategy::outcomes::lemma_pow5_le_pow6((5 - count_true(mask_flags(m))) as nat);
}

} // verus!
