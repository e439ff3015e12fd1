use crate::models::category::ScoreCategory;
use crate::models::category::all_categories;
use crate::models::category::category_at;
use crate::models::category::lemma_all_in_index_order;
use crate::models::dice_set::DiceSet;
use crate::models::dice_set::all_die_faces;
use crate::models::dice_set::is_die_face;
use crate::rules::scoring::calculate_score;
use crate::rules::scoring::category_points;
use crate::rules::scoring::count_face;
use crate::rules::scoring::face_counts;
use crate::rules::scoring::is_full_house;
use crate::rules::scoring::lemma_count_face_le_len;
use crate::rules::scoring::lemma_sum_faces_bounds;
use crate::rules::scoring::shows_run;
use crate::rules::scoring::some_count_at_least;
use crate::rules::scoring::sum_faces;
use vstd::prelude::*;

verus! {

/// What is measured on each outcome of a roll.
#[derive(Debug, Clone, Copy, PartialEq, Eq)]
pub enum RollMeasure {
    /// 1 if some face shows at least this many times, else 0.
    NOfAKind(u8),
    /// 1 if three of one face and two of another show, else 0.
    FullHouse,
    /// 1 if a run of this many consecutive faces shows, else 0.
    Straight(usize),
    /// 1 if the five dice score positive points in the category, else 0.
    ScoresIn(ScoreCategory),
    /// The best points the five dice score among the categories whose flag is set.
    BestOpenScore([bool; 13]),
}

/// `6^n`, the number of outcomes of rolling `n` dice.
pub open spec fn pow6(n: nat) -> nat
    decreases n,
{
    if n == 0 {
        1
    } else {
        6 * pow6((n - 1) as nat)
    }
}

/// `5^n`.
pub open spec fn pow5(n: nat) -> nat
    decreases n,
{
    if n == 0 {
        1
    } else {
        5 * pow5((n - 1) as nat)
    }
}

/// The roll shows a run of `len` consecutive faces (trivially so for `len == 0`).
pub open spec fn has_run(r: Seq<u8>, len: nat) -> bool {
    len == 0 || exists|s: u8| 1 <= s && s + len - 1 <= 6 && #[trigger] shows_run(r, s, (s + len - 1) as u8)
}

/// The best points the roll scores among the open categories `0..i`
/// (0 if none is open).
pub open spec fn best_open_points_upto(open: Seq<bool>, r: Seq<u8>, i: int) -> nat
    decreases i,
{
    if i <= 0 {
        0
    } else {
        let prev = best_open_points_upto(open, r, i - 1);
        let here = category_points(category_at(i - 1), r);
        if open[i - 1] && here > prev {
            here
        } else {
            prev
        }
    }
}

/// The best points the roll scores among the open categories.
pub open spec fn best_open_points(open: Seq<bool>, r: Seq<u8>) -> nat {
    best_open_points_upto(open, r, 13)
}

/// The value of a measure on one complete outcome.
pub open spec fn measure_value(m: RollMeasure, r: Seq<u8>) -> nat {
    match m {
        RollMeasure::NOfAKind(n) => if some_count_at_least(r, n as nat) {
            1
        } else {
            0
        },
        RollMeasure::FullHouse => if is_full_house(r) {
            1
        } else {
            0
        },
        RollMeasure::Straight(len) => if has_run(r, len as nat) {
            1
        } else {
            0
        },
        RollMeasure::ScoresIn(c) => if category_points(c, r) > 0 {
            1
        } else {
            0
        },
        RollMeasure::BestOpenScore(open) => best_open_points(open@, r),
    }
}

/// Total of the measure over every way of completing `prefix` with
/// `remaining` more dice, each showing a face from 1 to 6.
pub open spec fn total_over_outcomes(prefix: Seq<u8>, remaining: nat, m: RollMeasure) -> nat
    decreases remaining, 8int,
{
    if remaining == 0 {
        measure_value(m, prefix)
    } else {
        total_over_faces_from(prefix, remaining, m, 1)
    }
}

/// Total over the outcomes whose next die shows a face from `f` to 6.
pub open spec fn total_over_faces_from(prefix: Seq<u8>, remaining: nat, m: RollMeasure, f: int) -> nat
    decreases remaining, 7 - f,
{
    if remaining == 0 || f > 6 || f < 1 {
        0
    } else {
        total_over_outcomes(prefix.push(f as u8), (remaining - 1) as nat, m) + total_over_faces_from(
            prefix,
            remaining,
            m,
            f + 1,
        )
    }
}

/// An outcome counts for `n` of a kind exactly when some face from 1 to 6
/// shows on at least `n` of its dice.
pub proof fn lemma_n_of_a_kind_by_faces(r: Seq<u8>, n: u8)
    ensures
        measure_value(RollMeasure::NOfAKind(n), r) == if exists|v: u8| 1 <= v <= 6 && #[trigger] count_face(r, v)
            >= n {
            1nat
        } else {
            0nat
        },
{
    if exists|v: u8| 1 <= v <= 6 && #[trigger] count_face(r, v) >= n {
        let v = choose|v: u8| 1 <= v <= 6 && #[trigger] count_face(r, v) >= n;
        assert(v == 1 || v == 2 || v == 3 || v == 4 || v == 5 || v == 6);
    }
}

/// Every outcome that counts for `n + 1` of a kind counts for `n` of a kind,
/// so over any set of outcomes the favourable count for `n` is at least
/// the one for `n + 1`.
pub proof fn lemma_n_of_a_kind_monotone(prefix: Seq<u8>, remaining: nat, n: u8)
    requires
        n < 255,
    ensures
        total_over_outcomes(prefix, remaining, RollMeasure::NOfAKind((n + 1) as u8)) <= total_over_outcomes(
            prefix,
            remaining,
            RollMeasure::NOfAKind(n),
        ),
    decreases remaining, 8int,
{
    if remaining == 0 {
        lemma_n_of_a_kind_by_faces(prefix, n);
        lemma_n_of_a_kind_by_faces(prefix, (n + 1) as u8);
        if exists|v: u8| 1 <= v <= 6 && #[trigger] count_face(prefix, v) >= (n + 1) as u8 {
            let v = choose|v: u8| 1 <= v <= 6 && #[trigger] count_face(prefix, v) >= (n + 1) as u8;
            assert(count_face(prefix, v) >= n);
        }
    } else {
        lemma_n_of_a_kind_faces_monotone(prefix, remaining, n, 1);
    }
}

/// The monotonicity of `lemma_n_of_a_kind_monotone`, over the outcomes whose
/// next die shows a face from `f` to 6.
pub proof fn lemma_n_of_a_kind_faces_monotone(prefix: Seq<u8>, remaining: nat, n: u8, f: int)
    requires
        n < 255,
    ensures
        total_over_faces_from(prefix, remaining, RollMeasure::NOfAKind((n + 1) as u8), f)
            <= total_over_faces_from(prefix, remaining, RollMeasure::NOfAKind(n), f),
    decreases remaining, 7 - f,
{
    if remaining == 0 || f > 6 || f < 1 {
    } else {
        lemma_n_of_a_kind_monotone(prefix.push(f as u8), (remaining - 1) as nat, n);
        lemma_n_of_a_kind_faces_monotone(prefix, remaining, n, f + 1);
    }
}

/// Number of outcomes of the remaining dice.
pub proof fn lemma_pow6_small(n: nat)
    requires
        n <= 12,
    ensures
        1 <= pow6(n) <= 2176782336,
        n <= 5 ==> pow6(n) <= 7776,
    decreases n,
{
    reveal_with_fuel(pow6, 13);
    if n > 0 {
        lemma_pow6_small((n - 1) as nat);
    }
}

/// `5^n <= 6^n`.
pub proof fn lemma_pow5_le_pow6(n: nat)
    ensures
        1 <= pow5(n) <= pow6(n),
    decreases n,
{
    if n > 0 {
        lemma_pow5_le_pow6((n - 1) as nat);
    }
}

/// Appending a die face keeps all faces valid.
proof fn lemma_push_face(prefix: Seq<u8>, f: u8)
    requires
        all_die_faces(prefix),
        1 <= f <= 6,
    ensures
        all_die_faces(prefix.push(f)),
{
    assert forall|i: int| 0 <= i < prefix.push(f).len() implies is_die_face(#[trigger] prefix.push(f)[i]) by {
        if i < prefix.len() {
            assert(prefix.push(f)[i] == prefix[i]);
        }
    }
}

/// A category never scores more than 50 points on five dice.
pub proof fn lemma_category_points_le_50(c: ScoreCategory, r: Seq<u8>)
    requires
        r.len() == 5,
        all_die_faces(r),
    ensures
        category_points(c, r) <= 50,
{
    lemma_sum_faces_bounds(r);
    lemma_count_face_le_len(r, 1);
    lemma_count_face_le_len(r, 2);
    lemma_count_face_le_len(r, 3);
    lemma_count_face_le_len(r, 4);
    lemma_count_face_le_len(r, 5);
    lemma_count_face_le_len(r, 6);
}

/// The best open points never exceed 50.
pub proof fn lemma_best_open_points_le_50(open: Seq<bool>, r: Seq<u8>, i: int)
    requires
        r.len() == 5,
        all_die_faces(r),
    ensures
        best_open_points_upto(open, r, i) <= 50,
    decreases i,
{
    if i > 0 {
        lemma_best_open_points_le_50(open, r, i - 1);
        lemma_category_points_le_50(category_at(i - 1), r);
    }
}

/// The measure of a single outcome is at most 50.
pub proof fn lemma_measure_value_le_50(m: RollMeasure, r: Seq<u8>)
    requires
        m is BestOpenScore ==> r.len() == 5 && all_die_faces(r),
    ensures
        measure_value(m, r) <= 50,
{
    if let RollMeasure::BestOpenScore(open) = m {
        lemma_best_open_points_le_50(open@, r, 13);
    }
}

/// The total over all outcomes is at most 50 per outcome.
pub proof fn lemma_total_bound(prefix: Seq<u8>, remaining: nat, m: RollMeasure)
    requires
        all_die_faces(prefix),
        m is BestOpenScore ==> prefix.len() + remaining == 5,
    ensures
        total_over_outcomes(prefix, remaining, m) <= 50 * pow6(remaining),
    decreases remaining, 8int,
{
    if remaining == 0 {
        lemma_measure_value_le_50(m, prefix);
    } else {
        lemma_faces_from_bound(prefix, remaining, m, 1);
        let p = pow6((remaining - 1) as nat);
        assert(pow6(remaining) == 6 * p);
        assert((7 - 1) * 50 * p == 50 * (6 * p)) by (nonlinear_arith);
    }
}

/// The total over faces `f..=6` is at most 50 per outcome.
pub proof fn lemma_faces_from_bound(prefix: Seq<u8>, remaining: nat, m: RollMeasure, f: int)
    requires
        all_die_faces(prefix),
        m is BestOpenScore ==> prefix.len() + remaining == 5,
        remaining > 0,
        1 <= f <= 7,
    ensures
        total_over_faces_from(prefix, remaining, m, f) <= (7 - f) * 50 * pow6((remaining - 1) as nat),
    decreases remaining, 7 - f,
{
    if f <= 6 {
        lemma_push_face(prefix, f as u8);
        lemma_total_bound(prefix.push(f as u8), (remaining - 1) as nat, m);
        lemma_faces_from_bound(prefix, remaining, m, f + 1);
        assert((7 - f) * 50 * pow6((remaining - 1) as nat) == 50 * pow6((remaining - 1) as nat) + (7 - (f
            + 1)) * 50 * pow6((remaining - 1) as nat)) by (nonlinear_arith);
    }
}

/// The flags of the open categories as a sequence.
fn best_open_score(open: &[bool; 13], roll: &DiceSet) -> (best: u32)
    ensures
        best == best_open_points(open@, roll@),
{
    proof {
        use_type_invariant(roll);
        lemma_all_in_index_order();
    }
    let mut best: u32 = 0;
    let mut i: usize = 0;
    while i < 13
        invariant
            i <= 13,
            roll@.len() == 5,
            all_die_faces(roll@),
            ScoreCategory::ALL@ == all_categories(),
            best == best_open_points_upto(open@, roll@, i as int),
        decreases 13 - i,
    {
        proof {
            lemma_best_open_points_le_50(open@, roll@, i as int);
        }
        let c = ScoreCategory::ALL[i];
        let here = calculate_score(c, roll).get();
        if open[i] && here > best {
            best = here;
        }
        i += 1;
    }
    best
}

/// Whether a run of `len` consecutive faces shows in the counts.
fn counts_have_run(counts: &Vec<usize>, len: usize, roll: Ghost<Seq<u8>>) -> (b: bool)
    requires
        counts@.len() == 7,
        forall|v: int| 0 <= v < 7 ==> #[trigger] counts@[v] == count_face(roll@, v as u8),
    ensures
        b == has_run(roll@, len as nat),
{
    if len == 0 {
        return true;
    }
    if len > 6 {
        assert(!has_run(roll@, len as nat));
        return false;
    }
    let mut s: usize = 1;
    while s + len - 1 <= 6
        invariant
            1 <= len <= 6,
            1 <= s <= 8 - len,
            counts@.len() == 7,
            forall|v: int| 0 <= v < 7 ==> #[trigger] counts@[v] == count_face(roll@, v as u8),
            forall|t: u8| 1 <= t < s && t + len - 1 <= 6 ==> !#[trigger] shows_run(roll@, t, (t + len - 1) as u8),
        decreases 8 - len - s,
    {
        let mut all = true;
        let mut v: usize = s;
        while v <= s + len - 1
            invariant
                1 <= len <= 6,
                1 <= s,
                s + len - 1 <= 6,
                s <= v <= s + len,
                counts@.len() == 7,
                all <==> (forall|w: int| s <= w < v ==> #[trigger] counts@[w] >= 1),
            decreases s + len - v,
        {
            if counts[v] == 0 {
                all = false;
            }
            v += 1;
        }
        if all {
            assert(shows_run(roll@, s as u8, (s + len - 1) as u8)) by {
                assert forall|w: u8| s <= w <= s + len - 1 implies count_face(roll@, w) >= 1 by {
                    assert(counts@[w as int] >= 1);
                }
            }
            return true;
        }
        assert(!shows_run(roll@, s as u8, (s + len - 1) as u8)) by {
            let w = choose|w: int| s <= w < s + len && !(#[trigger] counts@[w] >= 1);
            assert(count_face(roll@, w as u8) == 0);
        }
        s += 1;
    }
    assert(!has_run(roll@, len as nat)) by {
        if has_run(roll@, len as nat) {
            let t = choose|t: u8| 1 <= t && t + len - 1 <= 6 && #[trigger] shows_run(roll@, t, (t + len - 1) as u8);
            assert(t < s);
        }
    }
    false
}

/// The value of the measure on one complete outcome.
fn measure_roll(m: &RollMeasure, roll: &Vec<u8>) -> (value: u64)
    requires
        all_die_faces(roll@),
        (*m is ScoresIn || *m is BestOpenScore) ==> roll@.len() == 5,
    ensures
        value == measure_value(*m, roll@),
{
    let counts = face_counts(roll.as_slice());
    match m {
        RollMeasure::NOfAKind(n) => {
            let mut v: usize = 1;
            while v <= 6
                invariant
                    1 <= v <= 7,
                    counts@.len() == 7,
                    forall|w: int| 0 <= w < 7 ==> #[trigger] counts@[w] == count_face(roll@, w as u8),
                    forall|w: int| 1 <= w < v ==> #[trigger] counts@[w] < *n as nat,
                    *m == RollMeasure::NOfAKind(*n),
                decreases 7 - v,
            {
                if counts[v] >= *n as usize {
                    assert(count_face(roll@, v as u8) >= *n as nat);
                    assert(some_count_at_least(roll@, *n as nat)) by {
                        if v == 1 {
                        } else if v == 2 {
                        } else if v == 3 {
                        } else if v == 4 {
                        } else if v == 5 {
                        } else {
                            assert(v == 6);
                        }
                    }
                    return 1;
                }
                v += 1;
            }
            assert(counts@[1] < *n as nat && counts@[2] < *n as nat && counts@[3] < *n as nat);
            assert(counts@[4] < *n as nat && counts@[5] < *n as nat && counts@[6] < *n as nat);
            0
        },
        RollMeasure::FullHouse => {
            let mut three = false;
            let mut two = false;
            let mut v: usize = 1;
            while v <= 6
                invariant
                    1 <= v <= 7,
                    counts@.len() == 7,
                    forall|w: int| 0 <= w < 7 ==> #[trigger] counts@[w] == count_face(roll@, w as u8),
                    three <==> exists|w: int| 1 <= w < v && #[trigger] counts@[w] == 3,
                    two <==> exists|w: int| 1 <= w < v && #[trigger] counts@[w] == 2,
                decreases 7 - v,
            {
                if counts[v] == 3 {
                    three = true;
                }
                if counts[v] == 2 {
                    two = true;
                }
                v += 1;
            }
            assert(counts@[1] == count_face(roll@, 1) && counts@[2] == count_face(roll@, 2));
            assert(counts@[3] == count_face(roll@, 3) && counts@[4] == count_face(roll@, 4));
            assert(counts@[5] == count_face(roll@, 5) && counts@[6] == count_face(roll@, 6));
            if three && two {
                1
            } else {
                0
            }
        },
        RollMeasure::Straight(len) => {
            if counts_have_run(&counts, *len, Ghost(roll@)) {
                1
            } else {
                0
            }
        },
        RollMeasure::ScoresIn(c) => {
            let dice = match DiceSet::from_values([roll[0], roll[1], roll[2], roll[3], roll[4]]) {
                Ok(d) => d,
                Err(_) => vstd::pervasive::unreached(),
            };
            assert(dice@ =~= roll@);
            if calculate_score(*c, &dice).get() > 0 {
                1
            } else {
                0
            }
        },
        RollMeasure::BestOpenScore(open) => {
            let dice = match DiceSet::from_values([roll[0], roll[1], roll[2], roll[3], roll[4]]) {
                Ok(d) => d,
                Err(_) => vstd::pervasive::unreached(),
            };
            assert(dice@ =~= roll@);
            best_open_score(open, &dice) as u64
        },
    }
}

/// Total of the measure over every completion of `prefix` by `remaining`
/// more dice.
pub fn enumerate_recursive(m: &RollMeasure, prefix: &mut Vec<u8>, remaining: usize) -> (total: u64)
    requires
        all_die_faces(old(prefix)@),
        remaining <= 5,
        old(prefix)@.len() + remaining <= 5,
        (*m is ScoresIn || *m is BestOpenScore) ==> old(prefix)@.len() + remaining == 5,
    ensures
        total == total_over_outcomes(old(prefix)@, remaining as nat, *m),
        final(prefix)@ == old(prefix)@,
    decreases remaining,
{
    if remaining == 0 {
        return measure_roll(m, prefix);
    }
    let ghost start = prefix@;
    proof {
        lemma_pow6_small(remaining as nat);
        lemma_pow6_small((remaining - 1) as nat);
    }
    let mut total: u64 = 0;
    let mut f: u8 = 1;
    while f <= 6
        invariant
            1 <= f <= 7,
            1 <= remaining <= 5,
            prefix@ == start,
            all_die_faces(start),
            start.len() + remaining <= 5,
            (*m is ScoresIn || *m is BestOpenScore) ==> start.len() + remaining == 5,
            pow6((remaining - 1) as nat) <= 7776,
            total + total_over_faces_from(start, remaining as nat, *m, f as int) == total_over_faces_from(
                start,
                remaining as nat,
                *m,
                1,
            ),
            total <= (f - 1) * 50 * pow6((remaining - 1) as nat),
        decreases 7 - f,
    {
        proof {
            lemma_push_face(start, f);
            lemma_total_bound(start.push(f), (remaining - 1) as nat, *m);
            assert((f - 1) * 50 * pow6((remaining - 1) as nat) + 50 * pow6((remaining - 1) as nat) == f * 50
                * pow6((remaining - 1) as nat)) by (nonlinear_arith);
            assert(f * 50 * pow6((remaining - 1) as nat) <= 6 * 50 * 7776) by (nonlinear_arith)
                requires
                    f <= 6,
                    pow6((remaining - 1) as nat) <= 7776,
            ;
        }
        prefix.push(f);
        let part = enumerate_recursive(m, prefix, remaining - 1);
        prefix.pop();
        assert(prefix@ =~= start);
        total = total + part;
        f += 1;
    }
    total
}

/// Total of the measure over all outcomes of rolling `dice_count` dice.
pub fn enumerate_rolls(m: &RollMeasure, dice_count: usize) -> (total: u64)
    requires
        dice_count <= 5,
        (*m is ScoresIn || *m is BestOpenScore) ==> dice_count == 5,
    ensures
        total == total_over_outcomes(Seq::empty(), dice_count as nat, *m),
{
    let mut roll: Vec<u8> = Vec::new();
    enumerate_recursive(m, &mut roll, dice_count)
}

} // verus!
