use crate::models::category::ScoreCategory;
use crate::models::dice_set::DiceSet;
use crate::models::dice_slot::DiceSlot;
use crate::models::hold_mask::HoldMask;
use crate::models::hold_mask::count_true;
use crate::models::roll_count::RollCount;
use crate::models::scorecard::Scorecard;
use crate::strategy::expected_value::best_category_choice;
use crate::strategy::expected_value::best_choice;
use crate::strategy::expected_value::best_hold_decision;
use crate::strategy::expected_value::best_mask;
use crate::strategy::expected_value::mask_flags;
use crate::strategy::expected_value::open_of;
use crate::strategy::probability::held_values;
use crate::strategy::probability::held_values_upto;
use crate::ui::models::decimal::decimal;
use crate::ui::models::decimal::push_decimal;
use vstd::prelude::*;

verus! {

/// Values in decimal, separated by ", ".
pub open spec fn joined(values: Seq<u8>) -> Seq<char>
    decreases values.len(),
{
    if values.len() == 0 {
        Seq::empty()
    } else if values.len() == 1 {
        decimal(values[0] as nat)
    } else {
        joined(values.drop_last()) + ", "@ + decimal(values.last() as nat)
    }
}

/// The hold hint for the dice and a recommended hold mask.
pub open spec fn hold_hint_of(dice: Seq<u8>, holds: Seq<bool>) -> Seq<char> {
    if count_true(holds) == 5 {
        "Keep all dice"@
    } else if count_true(holds) == 0 {
        "Re-roll all dice"@
    } else {
        "Keep "@ + joined(held_values(dice, holds))
    }
}

/// The category hint: the recommended category.
pub open spec fn category_hint_of(category: ScoreCategory) -> Seq<char> {
    "Best category: "@ + category.text_of()
}

/// The score hint: the points of the recommendation, if any.
pub open spec fn score_hint_of(points: nat) -> Seq<char> {
    if points > 0 {
        decimal(points) + " points"@
    } else {
        "No points"@
    }
}

/// The three lines of the hint panel.
#[derive(Debug)]
pub struct HintTexts {
    /// The recommended category.
    pub category: String,
    /// The points it scores.
    pub score: String,
    /// The dice to keep for the next roll.
    pub holds: String,
}

/// The text naming the held values, e.g. "Keep 3, 3, 5".
pub fn hold_hint_text(dice: &DiceSet, holds: HoldMask) -> (text: String)
    ensures
        text@ == hold_hint_of(dice@, holds@),
{
    let held = holds.held_count();
    if held == 5 {
        return String::from_str("Keep all dice");
    }
    if held == 0 {
        return String::from_str("Re-roll all dice");
    }
    let values = dice.values();
    let slots = DiceSlot::all();
    let mut text = String::from_str("Keep ");
    let mut first = true;
    let mut i: usize = 0;
    while i < 5
        invariant
            i <= 5,
            slots@.len() == 5,
            forall|j: int| 0 <= j < 5 ==> (#[trigger] slots@[j])@ == j,
            values@ == dice@,
            first == (held_values_upto(dice@, holds@, i as int).len() == 0),
            text@ == "Keep "@ + joined(held_values_upto(dice@, holds@, i as int)),
        decreases 5 - i,
    {
        if holds.is_held(slots[i]) {
            let ghost before = held_values_upto(dice@, holds@, i as int);
            if !first {
                text.append(", ");
            }
            push_decimal(&mut text, values[i] as u64);
            first = false;
            proof {
                let after = before.push(dice@[i as int]);
                assert(after.drop_last() =~= before);
                if before.len() == 0 {
                    assert("Keep "@ + joined(after) =~= "Keep "@ + Seq::<char>::empty() + decimal(
                        dice@[i as int] as nat,
                    ));
                } else {
                    assert("Keep "@ + joined(after) =~= "Keep "@ + joined(before) + ", "@ + decimal(
                        dice@[i as int] as nat,
                    ));
                }
            }
        }
        i += 1;
    }
    text
}

/// Update the hint panel for the current game state: the best category
/// and its points, and, while a roll is left, the dice to keep.
pub fn hint_texts(dice: &DiceSet, scorecard: &Scorecard, rolls_used: RollCount) -> (hints: HintTexts)
    ensures
        hints.category@ == category_hint_of(best_choice(open_of(scorecard.entries_of()), dice@).0),
        hints.score@ == score_hint_of(best_choice(open_of(scorecard.entries_of()), dice@).1),
        rolls_used@ == 3 ==> hints.holds@ == "No more rolls"@,
        rolls_used@ != 3 ==> hints.holds@ == hold_hint_of(
            dice@,
            mask_flags(best_mask(dice@, open_of(scorecard.entries_of()))),
        ),
{
    let best = best_category_choice(dice, scorecard);
    let mut category = String::from_str("Best category: ");
    let name = best.category().to_string();
    category.append(name.as_str());
    let points = best.score().get();
    let score = if points > 0 {
        let mut s = String::new();
        push_decimal(&mut s, points as u64);
        s.append(" points");
        s
    } else {
        String::from_str("No points")
    };
    let holds = if rolls_used.is_exhausted() {
        String::from_str("No more rolls")
    } else {
        let decision = best_hold_decision(dice, scorecard, rolls_used);
        hold_hint_text(dice, decision.holds())
    };
    proof {
        assert(Seq::<char>::empty() + decimal(points as nat) + " points"@ =~= decimal(points as nat)
            + " points"@);
    }
    HintTexts { category, score, holds }
}

} // verus!
