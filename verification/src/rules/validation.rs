use crate::models::category::ScoreCategory;
use crate::models::category::all_categories;
use crate::models::category::lemma_all_in_index_order;
use crate::models::dice_set::DiceSet;
use crate::models::score::Score;
use crate::rules::scoring::calculate_score;
use crate::rules::scoring::category_points;
use crate::rules::scoring::lemma_sum_faces_bounds;
use vstd::prelude::*;

verus! {

/// The categories (in scorecard order) in which the dice score positive points.
pub open spec fn valid_categories_of(dice: Seq<u8>) -> Seq<ScoreCategory> {
    all_categories().filter(|c: ScoreCategory| category_points(c, dice) > 0)
}

/// Returns true if the dice combination produces a positive score
/// for the given category.
///
/// A category is "valid" if entering the current dice values would
/// yield a score greater than zero.
pub fn is_valid(category: ScoreCategory, dice: &DiceSet) -> (b: bool)
    ensures
        b <==> category_points(category, dice@) > 0,
{
    calculate_score(category, dice).get() > 0
}

/// Returns a list of all categories that would score positive points
/// with the current dice values, in scorecard order.
pub fn valid_categories(dice: &DiceSet) -> (cats: Vec<ScoreCategory>)
    ensures
        cats@ == valid_categories_of(dice@),
{
    let ghost pred = |c: ScoreCategory| category_points(c, dice@) > 0;
    let mut cats: Vec<ScoreCategory> = Vec::new();
    let mut i: usize = 0;
    proof {
        lemma_all_in_index_order();
    }
    while i < 13
        invariant
            i <= 13,
            ScoreCategory::ALL@ == all_categories(),
            pred == (|c: ScoreCategory| category_points(c, dice@) > 0),
            cats@ == all_categories().take(i as int).filter(pred),
        decreases 13 - i,
    {
        let c = ScoreCategory::ALL[i];
        assert(all_categories().take(i as int + 1).drop_last() =~= all_categories().take(i as int));
        reveal_with_fuel(Seq::<_>::filter, 1);
        if is_valid(c, dice) {
            cats.push(c);
        }
        i += 1;
    }
    assert(all_categories().take(13) =~= all_categories());
    cats
}

/// Returns the score that would be achieved by entering the dice
/// values into the given category. Does not modify any scorecard.
pub fn potential_score(category: ScoreCategory, dice: &DiceSet) -> (s: Score)
    ensures
        s@ == category_points(category, dice@),
{
    calculate_score(category, dice)
}

/// Returns true if no category can produce a positive score with the
/// current dice values. In this case, the player must cross out a category.
pub fn must_cross_out(dice: &DiceSet) -> (b: bool)
    ensures
        b <==> valid_categories_of(dice@).len() == 0,
        !b,
{
    proof {
        use_type_invariant(dice);
        lemma_never_must_cross_out(*dice);
    }
    valid_categories(dice).len() == 0
}

/// Chance always scores the sum of the dice, which is at least 5: every
/// roll is valid for Chance.
pub proof fn lemma_chance_always_valid(dice: DiceSet)
    requires
        dice.inv(),
    ensures
        category_points(ScoreCategory::Chance, dice@) >= 5,
{
    lemma_sum_faces_bounds(dice@);
}

/// Since Chance always scores, no roll ever forces a cross-out.
pub proof fn lemma_never_must_cross_out(dice: DiceSet)
    requires
        dice.inv(),
    ensures
        valid_categories_of(dice@).len() > 0,
{
    lemma_chance_always_valid(dice);
    let pred = |c: ScoreCategory| category_points(c, dice@) > 0;
    assert(pred(all_categories()[12]));
    all_categories().filter_lemma(pred);
    assert(all_categories().filter(pred).contains(ScoreCategory::Chance));
}

} // verus!
