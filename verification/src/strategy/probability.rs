use crate::error::Result;
use crate::error::YatzyError;
use crate::models::category::ScoreCategory;
use crate::models::dice_set::DiceSet;
use crate::models::dice_set::all_die_faces;
use crate::models::dice_set::is_die_face;
use crate::models::dice_slot::DiceSlot;
use crate::models::hold_mask::HoldMask;
use crate::models::hold_mask::count_true;
use crate::rules::scoring::calculate_score;
use crate::rules::scoring::category_points;
use crate::strategy::outcomes::RollMeasure;
use crate::strategy::outcomes::enumerate_recursive;
use crate::strategy::outcomes::enumerate_rolls;
use crate::strategy::outcomes::lemma_pow5_le_pow6;
use crate::strategy::outcomes::lemma_pow6_small;
use crate::strategy::outcomes::lemma_total_bound;
use crate::strategy::outcomes::pow5;
use crate::strategy::outcomes::pow6;
use crate::strategy::outcomes::total_over_outcomes;
use vstd::prelude::*;

verus! {

/// An exact probability, stored as a fraction `numerator / denominator`
/// with `0 < denominator` and `numerator <= denominator`.
///
/// It is used throughout the strategy module for roll outcome
/// calculations: outcome counts are exact, so the fraction is too.
#[derive(Debug, Clone, Copy, Eq)]
pub struct Probability {
    numerator: u64,
    denominator: u64,
}

impl Probability {
    /// The numerator of the fraction.
    pub closed spec fn num(&self) -> nat {
        self.numerator as nat
    }

    /// The denominator of the fraction.
    pub closed spec fn den(&self) -> nat {
        self.denominator as nat
    }

    /// A probability lies in `[0, 1]` and has a positive denominator.
    #[verifier::type_invariant]
    pub open spec fn inv(&self) -> bool {
        0 < self.den() && self.num() <= self.den() && self.den() <= u64::MAX
    }

    /// Create a probability from a fraction (numerator / denominator).
    /// Returns an error if the denominator is 0 or the fraction is > 1.
    pub fn from_fraction(numerator: u32, denominator: u32) -> (r: Result<Probability>)
        ensures
            r is Ok <==> (denominator != 0 && numerator <= denominator),
            r matches Ok(p) ==> p.num() == numerator && p.den() == denominator,
            r matches Err(e) ==> e == YatzyError::InvalidProbability(numerator as u64, denominator as u64),
    {
        if denominator == 0 || numerator > denominator {
            return Err(YatzyError::InvalidProbability(numerator as u64, denominator as u64));
        }
        Ok(Probability { numerator: numerator as u64, denominator: denominator as u64 })
    }

    /// Zero probability (impossible event): 0/1.
    pub fn zero() -> (p: Probability)
        ensures
            p.num() == 0 && p.den() == 1,
    {
        Probability { numerator: 0, denominator: 1 }
    }

    /// One probability (certain event): 1/1.
    pub fn one() -> (p: Probability)
        ensures
            p.num() == 1 && p.den() == 1,
    {
        Probability { numerator: 1, denominator: 1 }
    }

    /// The numerator of the fraction.
    pub fn numerator(self) -> (n: u64)
        ensures
            n == self.num(),
            n <= self.den(),
    {
        proof {
            use_type_invariant(&self);
        }
        self.numerator
    }

    /// The denominator of the fraction (never zero).
    pub fn denominator(self) -> (d: u64)
        ensures
            d == self.den(),
            d > 0,
    {
        proof {
            use_type_invariant(&self);
        }
        self.denominator
    }

    /// Returns true if this probability is zero (impossible).
    pub fn is_zero(self) -> (b: bool)
        ensures
            b <==> self.num() == 0,
    {
        self.numerator == 0
    }

    /// Returns true if this probability is one (certain).
    pub fn is_certain(self) -> (b: bool)
        ensures
            b <==> self.num() == self.den(),
    {
        self.numerator == self.denominator
    }

    /// Complement probability (1 - p), over the same denominator.
    pub fn complement(self) -> (c: Probability)
        ensures
            c.num() == self.den() - self.num(),
            c.den() == self.den(),
    {
        proof {
            use_type_invariant(&self);
        }
        Probability { numerator: self.denominator - self.numerator, denominator: self.denominator }
    }

    /// Product of two probabilities (both events, when independent).
    pub fn times(self, other: Probability) -> (p: Probability)
        requires
            self.den() * other.den() <= u64::MAX,
        ensures
            p.num() == self.num() * other.num(),
            p.den() == self.den() * other.den(),
    {
        proof {
            use_type_invariant(&self);
            use_type_invariant(&other);
            assert(self.num() * other.num() <= self.den() * other.den()) by (nonlinear_arith)
                requires
                    self.num() <= self.den(),
                    other.num() <= other.den(),
            ;
            assert(0 < self.den() * other.den()) by (nonlinear_arith)
                requires
                    0 < self.den(),
                    0 < other.den(),
            ;
        }
        Probability {
            numerator: self.numerator * other.numerator,
            denominator: self.denominator * other.denominator,
        }
    }

    /// `count` favourable out of `total` outcomes.
    fn of_outcomes(count: u64, total: u64) -> (p: Probability)
        requires
            0 < total,
            count <= total,
        ensures
            p.num() == count && p.den() == total,
    {
        Probability { numerator: count, denominator: total }
    }
}

/// A probability and its complement add up to certainty, and the
/// complement of the complement is the probability itself.
pub proof fn lemma_complement_twice(p: Probability, c: Probability, cc: Probability)
    requires
        p.num() <= p.den(),
        c.num() == p.den() - p.num(),
        c.den() == p.den(),
        cc.num() == c.den() - c.num(),
        cc.den() == c.den(),
    ensures
        p.num() + c.num() == p.den(),
        cc.num() == p.num(),
        cc.den() == p.den(),
        cc == p,
{
}

/// The number of sides on a single die.
const DIE_SIDES: u32 = 6;

/// The total number of possible outcomes when rolling `n` dice: `6^n`.
pub(crate) fn total_outcomes(dice_count: usize) -> (total: u32)
    requires
        dice_count <= 12,
    ensures
        total == pow6(dice_count as nat),
        total >= 1,
{
    proof {
        lemma_pow6_small(dice_count as nat);
    }
    let mut total: u32 = 1;
    let mut i: usize = 0;
    while i < dice_count
        invariant
            i <= dice_count <= 12,
            total == pow6(i as nat),
            pow6(dice_count as nat) <= 2176782336,
        decreases dice_count - i,
    {
        proof {
            lemma_pow6_monotone((i + 1) as nat, dice_count as nat);
        }
        total = total * DIE_SIDES;
        i += 1;
    }
    total
}

/// `6^n` grows with `n`.
proof fn lemma_pow6_monotone(a: nat, b: nat)
    requires
        a <= b,
    ensures
        pow6(a) <= pow6(b),
    decreases b,
{
    if a < b {
        lemma_pow6_monotone(a, (b - 1) as nat);
    }
}

/// `6^24` fits a `u64`.
proof fn lemma_pow6_24()
    ensures
        pow6(24) == 4738381338321616896,
{
    reveal_with_fuel(pow6, 25);
}

/// Calculate the probability of rolling a specific face value at least
/// once when re-rolling `dice_count` dice: `1 - (5/6)^n`, exactly
/// `(6^n - 5^n) / 6^n`; 0 for no dice.
///
/// Example: probability of getting at least one 6 when rolling 2 dice.
pub fn probability_of_face(dice_count: usize, _face: u8) -> (r: Result<Probability>)
    requires
        dice_count <= 24,
    ensures
        r is Ok,
        r matches Ok(p) ==> (dice_count == 0 ==> p.num() == 0 && p.den() == 1) && (dice_count > 0
            ==> p.num() == pow6(dice_count as nat) - pow5(dice_count as nat) && p.den() == pow6(
            dice_count as nat,
        )),
{
    if dice_count == 0 {
        return Ok(Probability::zero());
    }
    proof {
        lemma_pow6_24();
        lemma_pow6_monotone(dice_count as nat, 24);
        lemma_pow5_le_pow6(dice_count as nat);
    }
    let mut all: u64 = 1;
    let mut none: u64 = 1;
    let mut i: usize = 0;
    while i < dice_count
        invariant
            i <= dice_count <= 24,
            all == pow6(i as nat),
            none == pow5(i as nat),
            pow6(dice_count as nat) <= 4738381338321616896,
        decreases dice_count - i,
    {
        proof {
            lemma_pow6_monotone((i + 1) as nat, dice_count as nat);
            lemma_pow5_le_pow6((i + 1) as nat);
        }
        all = all * 6;
        none = none * 5;
        i += 1;
    }
    Ok(Probability::of_outcomes(all - none, all))
}

/// Calculate the probability of rolling at least `n` dice showing the
/// same face value when rolling `dice_count` dice.
///
/// Exact by enumeration of all outcomes for up to five dice; 0 for more
/// dice, and for no dice or `n` larger than the number of dice; 1 for
/// `n == 0`.
pub fn probability_of_n_of_a_kind(dice_count: usize, n: u8) -> (r: Result<Probability>)
    ensures
        r is Ok,
        r matches Ok(p) ==> if dice_count == 0 || n as usize > dice_count {
            p.num() == 0 && p.den() == 1
        } else if n == 0 {
            p.num() == 1 && p.den() == 1
        } else if dice_count <= 5 {
            p.num() == total_over_outcomes(Seq::empty(), dice_count as nat, RollMeasure::NOfAKind(n))
                && p.den() == pow6(dice_count as nat)
        } else {
            p.num() == 0 && p.den() == 1
        },
{
    if dice_count == 0 || n as usize > dice_count {
        return Ok(Probability::zero());
    }
    if n == 0 {
        return Ok(Probability::one());
    }
    if dice_count <= 5 {
        let total = total_outcomes(dice_count);
        let favorable = enumerate_rolls(&RollMeasure::NOfAKind(n), dice_count);
        proof {
            lemma_count_le_total(Seq::empty(), dice_count as nat, RollMeasure::NOfAKind(n));
        }
        return Ok(Probability::of_outcomes(favorable, total as u64));
    }
    Ok(Probability::zero())
}

/// Calculate the probability of rolling a full house (exactly 3 of one
/// value and 2 of another) when rolling `dice_count` dice: by enumeration
/// for five dice, 0 otherwise.
pub fn probability_of_full_house(dice_count: usize) -> (r: Result<Probability>)
    ensures
        r is Ok,
        r matches Ok(p) ==> if dice_count == 5 {
            p.num() == total_over_outcomes(Seq::empty(), 5, RollMeasure::FullHouse) && p.den() == pow6(5)
        } else {
            p.num() == 0 && p.den() == 1
        },
{
    if dice_count < 5 {
        return Ok(Probability::zero());
    }
    if dice_count == 5 {
        let total = total_outcomes(5);
        let favorable = enumerate_rolls(&RollMeasure::FullHouse, 5);
        proof {
            lemma_count_le_total(Seq::empty(), 5, RollMeasure::FullHouse);
        }
        return Ok(Probability::of_outcomes(favorable, total as u64));
    }
    Ok(Probability::zero())
}

/// Calculate the probability of rolling a straight of at least `length`
/// consecutive values when rolling `dice_count` dice: by enumeration for
/// up to five dice, 0 for fewer dice than `length` or more than five dice.
pub fn probability_of_straight(dice_count: usize, length: usize) -> (r: Result<Probability>)
    ensures
        r is Ok,
        r matches Ok(p) ==> if dice_count < length || dice_count > 5 {
            p.num() == 0 && p.den() == 1
        } else {
            p.num() == total_over_outcomes(Seq::empty(), dice_count as nat, RollMeasure::Straight(length))
                && p.den() == pow6(dice_count as nat)
        },
{
    if dice_count < length {
        return Ok(Probability::zero());
    }
    if dice_count <= 5 {
        let total = total_outcomes(dice_count);
        let favorable = enumerate_rolls(&RollMeasure::Straight(length), dice_count);
        proof {
            lemma_count_le_total(Seq::empty(), dice_count as nat, RollMeasure::Straight(length));
        }
        return Ok(Probability::of_outcomes(favorable, total as u64));
    }
    Ok(Probability::zero())
}

/// Calculate the probability of rolling a Yatzy (all 5 dice same value)
/// when rolling `dice_count` dice.
pub fn probability_of_yatzy(dice_count: usize) -> (r: Result<Probability>)
    ensures
        r is Ok,
        r matches Ok(p) ==> if dice_count == 5 {
            p.num() == total_over_outcomes(Seq::empty(), 5, RollMeasure::NOfAKind(5)) && p.den() == pow6(5)
        } else {
            p.num() == 0 && p.den() == 1
        },
{
    probability_of_n_of_a_kind(dice_count, 5)
}

/// The held dice values, in slot order, among the first `i` slots.
pub open spec fn held_values_upto(dice: Seq<u8>, holds: Seq<bool>, i: int) -> Seq<u8>
    decreases i,
{
    if i <= 0 {
        Seq::empty()
    } else if holds[i - 1] {
        held_values_upto(dice, holds, i - 1).push(dice[i - 1])
    } else {
        held_values_upto(dice, holds, i - 1)
    }
}

/// The held dice values, in slot order.
pub open spec fn held_values(dice: Seq<u8>, holds: Seq<bool>) -> Seq<u8> {
    held_values_upto(dice, holds, 5)
}

/// The values of the held dice, in slot order.
pub fn held_dice_values(current: &DiceSet, holds: HoldMask) -> (held: Vec<u8>)
    ensures
        held@ == held_values(current@, holds@),
        held@.len() == count_true(holds@),
        all_die_faces(held@),
{
    proof {
        use_type_invariant(current);
        HoldMask::lemma_len(holds);
    }
    let values = current.values();
    let slots = DiceSlot::all();
    let mut held: Vec<u8> = Vec::new();
    let mut i: usize = 0;
    while i < 5
        invariant
            i <= 5,
            values@ == current@,
            all_die_faces(current@),
            current@.len() == 5,
            holds@.len() == 5,
            slots@.len() == 5,
            forall|j: int| 0 <= j < 5 ==> (#[trigger] slots@[j])@ == j,
            held@ == held_values_upto(current@, holds@, i as int),
            held@.len() == count_true(holds@.take(i as int)),
            all_die_faces(held@),
        decreases 5 - i,
    {
        assert(holds@.take(i as int + 1).drop_last() =~= holds@.take(i as int));
        if holds.is_held(slots[i]) {
            assert(is_die_face(values@[i as int]));
            held.push(values[i]);
            assert forall|j: int| 0 <= j < held@.len() implies is_die_face(#[trigger] held@[j]) by {
                if j < held@.len() - 1 {
                    assert(held@[j] == held_values_upto(current@, holds@, i as int)[j]);
                }
            }
        }
        i += 1;
    }
    assert(holds@.take(5) =~= holds@);
    held
}

/// The favourable count never exceeds the number of outcomes.
proof fn lemma_count_le_total(prefix: Seq<u8>, remaining: nat, m: RollMeasure)
    requires
        all_die_faces(prefix),
        !(m is BestOpenScore),
    ensures
        total_over_outcomes(prefix, remaining, m) <= pow6(remaining),
    decreases remaining, 8int,
{
    if remaining > 0 {
        lemma_count_faces_le(prefix, remaining, m, 1);
        assert(pow6(remaining) == 6 * pow6((remaining - 1) as nat));
    }
}

/// The favourable count over faces `f..=6` is at most `(7 - f) * 6^(r-1)`.
proof fn lemma_count_faces_le(prefix: Seq<u8>, remaining: nat, m: RollMeasure, f: int)
    requires
        all_die_faces(prefix),
        !(m is BestOpenScore),
        remaining > 0,
        1 <= f <= 7,
    ensures
        crate::strategy::outcomes::total_over_faces_from(prefix, remaining, m, f) <= (7 - f) * pow6(
            (remaining - 1) as nat,
        ),
    decreases remaining, 7 - f,
{
    if f <= 6 {
        assert(all_die_faces(prefix.push(f as u8))) by {
            assert forall|i: int| 0 <= i < prefix.push(f as u8).len() implies is_die_face(
                #[trigger] prefix.push(f as u8)[i],
            ) by {
                if i < prefix.len() {
                    assert(prefix.push(f as u8)[i] == prefix[i]);
                }
            }
        }
        lemma_count_le_total(prefix.push(f as u8), (remaining - 1) as nat, m);
        lemma_count_faces_le(prefix, remaining, m, f + 1);
        assert((7 - f) * pow6((remaining - 1) as nat) == pow6((remaining - 1) as nat) + (7 - (f + 1))
            * pow6((remaining - 1) as nat)) by (nonlinear_arith);
    }
}

/// Calculate the probability of scoring positive points in `category`
/// after re-rolling the non-held dice.
///
/// With no dice to re-roll the outcome is certain: 1 if the current dice
/// score, else 0. Otherwise every outcome of the re-rolled dice is
/// combined with the held dice (held values first, in slot order) and the
/// scoring outcomes are counted.
pub fn probability_of_category_score(current: &DiceSet, holds: HoldMask, category: ScoreCategory) -> (r:
    Result<Probability>)
    ensures
        r is Ok,
        r matches Ok(p) ==> if count_true(holds@) == 5 {
            p.den() == 1 && (p.num() == 1 <==> category_points(category, current@) > 0) && (p.num() == 0
                <==> category_points(category, current@) == 0)
        } else {
            p.num() == total_over_outcomes(
                held_values(current@, holds@),
                (5 - count_true(holds@)) as nat,
                RollMeasure::ScoresIn(category),
            ) && p.den() == pow6((5 - count_true(holds@)) as nat)
        },
{
    let reroll_count = holds.reroll_count();
    if reroll_count == 0 {
        let score = calculate_score(category, current);
        if score.get() > 0 {
            return Ok(Probability::one());
        }
        return Ok(Probability::zero());
    }
    let total = total_outcomes(reroll_count);
    let mut held = held_dice_values(current, holds);
    let favorable = enumerate_recursive(&RollMeasure::ScoresIn(category), &mut held, reroll_count);
    proof {
        lemma_count_le_total(held_values(current@, holds@), reroll_count as nat, RollMeasure::ScoresIn(category));
    }
    Ok(Probability::of_outcomes(favorable, total as u64))
}

} // verus!
