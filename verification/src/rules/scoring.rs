use crate::models::category::ScoreCategory;
use crate::models::dice_set::DiceSet;
use crate::models::dice_set::all_die_faces;
use crate::models::score::Score;
use vstd::prelude::*;

verus! {

/// Number of dice in `s` showing `v`.
pub open spec fn count_face(s: Seq<u8>, v: u8) -> nat
    decreases s.len(),
{
    if s.len() == 0 {
        0
    } else {
        count_face(s.drop_last(), v) + if s.last() == v {
            1nat
        } else {
            0nat
        }
    }
}

/// Sum of all dice in `s`.
pub open spec fn sum_faces(s: Seq<u8>) -> nat
    decreases s.len(),
{
    if s.len() == 0 {
        0
    } else {
        sum_faces(s.drop_last()) + (s.last() as nat)
    }
}

/// Some face in `1..=6` shows on at least `n` dice.
pub open spec fn some_count_at_least(s: Seq<u8>, n: nat) -> bool {
    ||| count_face(s, 1) >= n
    ||| count_face(s, 2) >= n
    ||| count_face(s, 3) >= n
    ||| count_face(s, 4) >= n
    ||| count_face(s, 5) >= n
    ||| count_face(s, 6) >= n
}

/// Some face in `1..=6` shows on exactly `n` dice.
pub open spec fn some_count_exactly(s: Seq<u8>, n: nat) -> bool {
    ||| count_face(s, 1) == n
    ||| count_face(s, 2) == n
    ||| count_face(s, 3) == n
    ||| count_face(s, 4) == n
    ||| count_face(s, 5) == n
    ||| count_face(s, 6) == n
}

/// `s` shows every face from `lo` to `hi`.
pub open spec fn shows_run(s: Seq<u8>, lo: u8, hi: u8) -> bool {
    forall|v: u8| lo <= v <= hi ==> count_face(s, v) >= 1
}

/// Four consecutive values.
pub open spec fn is_small_straight(s: Seq<u8>) -> bool {
    shows_run(s, 1, 4) || shows_run(s, 2, 5) || shows_run(s, 3, 6)
}

/// Five consecutive values.
pub open spec fn is_large_straight(s: Seq<u8>) -> bool {
    shows_run(s, 1, 5) || shows_run(s, 2, 6)
}

/// Three of one value and two of another.
pub open spec fn is_full_house(s: Seq<u8>) -> bool {
    some_count_exactly(s, 3) && some_count_exactly(s, 2)
}

/// All five dice show the same value.
pub open spec fn is_yatzy(s: Seq<u8>) -> bool {
    some_count_exactly(s, 5)
}

/// The points that the dice `s` are worth in category `c`.
pub open spec fn category_points(c: ScoreCategory, s: Seq<u8>) -> nat {
    match c {
        ScoreCategory::Ones => count_face(s, 1),
        ScoreCategory::Twos => 2 * count_face(s, 2),
        ScoreCategory::Threes => 3 * count_face(s, 3),
        ScoreCategory::Fours => 4 * count_face(s, 4),
        ScoreCategory::Fives => 5 * count_face(s, 5),
        ScoreCategory::Sixes => 6 * count_face(s, 6),
        ScoreCategory::ThreeOfAKind => if some_count_at_least(s, 3) {
            sum_faces(s)
        } else {
            0
        },
        ScoreCategory::FourOfAKind => if some_count_at_least(s, 4) {
            sum_faces(s)
        } else {
            0
        },
        ScoreCategory::FullHouse => if is_full_house(s) {
            25
        } else {
            0
        },
        ScoreCategory::SmallStraight => if is_small_straight(s) {
            30
        } else {
            0
        },
        ScoreCategory::LargeStraight => if is_large_straight(s) {
            40
        } else {
            0
        },
        ScoreCategory::Yatzy => if is_yatzy(s) {
            50
        } else {
            0
        },
        ScoreCategory::Chance => sum_faces(s),
    }
}

/// A face count never exceeds the number of dice.
pub proof fn lemma_count_face_le_len(s: Seq<u8>, v: u8)
    ensures
        count_face(s, v) <= s.len(),
    decreases s.len(),
{
    if s.len() > 0 {
        lemma_count_face_le_len(s.drop_last(), v);
    }
}

/// The sum of die faces is at most six per die and at least one per die.
pub proof fn lemma_sum_faces_bounds(s: Seq<u8>)
    requires
        all_die_faces(s),
    ensures
        s.len() <= sum_faces(s) <= 6 * s.len(),
    decreases s.len(),
{
    if s.len() > 0 {
        assert(all_die_faces(s.drop_last())) by {
            assert forall|i: int| 0 <= i < s.drop_last().len() implies crate::models::dice_set::is_die_face(
                #[trigger] s.drop_last()[i],
            ) by {
                assert(s.drop_last()[i] == s[i]);
            }
        }
        assert(crate::models::dice_set::is_die_face(s[s.len() - 1]));
        lemma_sum_faces_bounds(s.drop_last());
    }
}

/// Straights and Yatzy, by the faces shown: a small straight scores 30
/// exactly when the dice show all of 1-2-3-4, all of 2-3-4-5 or all of
/// 3-4-5-6, and 0 otherwise; a large straight scores 40 exactly when they
/// show all of 1-2-3-4-5 or all of 2-3-4-5-6; a Yatzy scores 50 exactly
/// when one face shows on five dice.
pub proof fn lemma_straights_and_yatzy_by_faces(s: Seq<u8>)
    ensures
        category_points(ScoreCategory::SmallStraight, s) == if (count_face(s, 1) >= 1 && count_face(s, 2) >= 1
            && count_face(s, 3) >= 1 && count_face(s, 4) >= 1) || (count_face(s, 2) >= 1 && count_face(s, 3)
            >= 1 && count_face(s, 4) >= 1 && count_face(s, 5) >= 1) || (count_face(s, 3) >= 1 && count_face(
            s,
            4,
        ) >= 1 && count_face(s, 5) >= 1 && count_face(s, 6) >= 1) {
            30nat
        } else {
            0nat
        },
        category_points(ScoreCategory::LargeStraight, s) == if (count_face(s, 1) >= 1 && count_face(s, 2) >= 1
            && count_face(s, 3) >= 1 && count_face(s, 4) >= 1 && count_face(s, 5) >= 1) || (count_face(s, 2)
            >= 1 && count_face(s, 3) >= 1 && count_face(s, 4) >= 1 && count_face(s, 5) >= 1 && count_face(
            s,
            6,
        ) >= 1) {
            40nat
        } else {
            0nat
        },
        category_points(ScoreCategory::Yatzy, s) == if exists|v: u8| 1 <= v <= 6 && #[trigger] count_face(s, v)
            == 5 {
            50nat
        } else {
            0nat
        },
{
    assert(shows_run(s, 1, 4) <==> (count_face(s, 1) >= 1 && count_face(s, 2) >= 1 && count_face(s, 3) >= 1
        && count_face(s, 4) >= 1)) by {
        if count_face(s, 1) >= 1 && count_face(s, 2) >= 1 && count_face(s, 3) >= 1 && count_face(s, 4) >= 1 {
            assert forall|v: u8| 1 <= v <= 4 implies count_face(s, v) >= 1 by {
                assert(v == 1 || v == 2 || v == 3 || v == 4);
            }
        }
    }
    assert(shows_run(s, 2, 5) <==> (count_face(s, 2) >= 1 && count_face(s, 3) >= 1 && count_face(s, 4) >= 1
        && count_face(s, 5) >= 1)) by {
        if count_face(s, 2) >= 1 && count_face(s, 3) >= 1 && count_face(s, 4) >= 1 && count_face(s, 5) >= 1 {
            assert forall|v: u8| 2 <= v <= 5 implies count_face(s, v) >= 1 by {
                assert(v == 2 || v == 3 || v == 4 || v == 5);
            }
        }
    }
    assert(shows_run(s, 3, 6) <==> (count_face(s, 3) >= 1 && count_face(s, 4) >= 1 && count_face(s, 5) >= 1
        && count_face(s, 6) >= 1)) by {
        if count_face(s, 3) >= 1 && count_face(s, 4) >= 1 && count_face(s, 5) >= 1 && count_face(s, 6) >= 1 {
            assert forall|v: u8| 3 <= v <= 6 implies count_face(s, v) >= 1 by {
                assert(v == 3 || v == 4 || v == 5 || v == 6);
            }
        }
    }
    assert(shows_run(s, 1, 5) <==> (count_face(s, 1) >= 1 && count_face(s, 2) >= 1 && count_face(s, 3) >= 1
        && count_face(s, 4) >= 1 && count_face(s, 5) >= 1)) by {
        if count_face(s, 1) >= 1 && count_face(s, 2) >= 1 && count_face(s, 3) >= 1 && count_face(s, 4) >= 1
            && count_face(s, 5) >= 1 {
            assert forall|v: u8| 1 <= v <= 5 implies count_face(s, v) >= 1 by {
                assert(v == 1 || v == 2 || v == 3 || v == 4 || v == 5);
            }
        }
    }
    assert(shows_run(s, 2, 6) <==> (count_face(s, 2) >= 1 && count_face(s, 3) >= 1 && count_face(s, 4) >= 1
        && count_face(s, 5) >= 1 && count_face(s, 6) >= 1)) by {
        if count_face(s, 2) >= 1 && count_face(s, 3) >= 1 && count_face(s, 4) >= 1 && count_face(s, 5) >= 1
            && count_face(s, 6) >= 1 {
            assert forall|v: u8| 2 <= v <= 6 implies count_face(s, v) >= 1 by {
                assert(v == 2 || v == 3 || v == 4 || v == 5 || v == 6);
            }
        }
    }
    if exists|v: u8| 1 <= v <= 6 && #[trigger] count_face(s, v) == 5 {
        let v = choose|v: u8| 1 <= v <= 6 && #[trigger] count_face(s, v) == 5;
        assert(v == 1 || v == 2 || v == 3 || v == 4 || v == 5 || v == 6);
    }
}

/// The other categories, by the faces shown: each upper category scores
/// its face value times the number of dice showing it; three and four of
/// a kind score the sum of the dice exactly when some face shows on at
/// least three (four) dice; a full house scores 25 exactly when one face
/// shows on three dice and another on two; Chance scores the sum.
pub proof fn lemma_other_categories_by_faces(s: Seq<u8>)
    ensures
        category_points(ScoreCategory::Ones, s) == count_face(s, 1),
        category_points(ScoreCategory::Twos, s) == 2 * count_face(s, 2),
        category_points(ScoreCategory::Threes, s) == 3 * count_face(s, 3),
        category_points(ScoreCategory::Fours, s) == 4 * count_face(s, 4),
        category_points(ScoreCategory::Fives, s) == 5 * count_face(s, 5),
        category_points(ScoreCategory::Sixes, s) == 6 * count_face(s, 6),
        category_points(ScoreCategory::ThreeOfAKind, s) == if exists|v: u8| 1 <= v <= 6 && #[trigger] count_face(
            s,
            v,
        ) >= 3 {
            sum_faces(s)
        } else {
            0
        },
        category_points(ScoreCategory::FourOfAKind, s) == if exists|v: u8| 1 <= v <= 6 && #[trigger] count_face(
            s,
            v,
        ) >= 4 {
            sum_faces(s)
        } else {
            0
        },
        category_points(ScoreCategory::FullHouse, s) == if exists|v: u8, w: u8|
            1 <= v <= 6 && 1 <= w <= 6 && #[trigger] count_face(s, v) == 3 && #[trigger] count_face(s, w) == 2 {
            25nat
        } else {
            0nat
        },
        category_points(ScoreCategory::Chance, s) == sum_faces(s),
{
    if exists|v: u8| 1 <= v <= 6 && #[trigger] count_face(s, v) >= 3 {
        let v = choose|v: u8| 1 <= v <= 6 && #[trigger] count_face(s, v) >= 3;
        assert(v == 1 || v == 2 || v == 3 || v == 4 || v == 5 || v == 6);
    }
    if exists|v: u8| 1 <= v <= 6 && #[trigger] count_face(s, v) >= 4 {
        let v = choose|v: u8| 1 <= v <= 6 && #[trigger] count_face(s, v) >= 4;
        assert(v == 1 || v == 2 || v == 3 || v == 4 || v == 5 || v == 6);
    }
    if exists|v: u8, w: u8|
        1 <= v <= 6 && 1 <= w <= 6 && #[trigger] count_face(s, v) == 3 && #[trigger] count_face(s, w) == 2 {
        let (v, w) = choose|v: u8, w: u8|
            1 <= v <= 6 && 1 <= w <= 6 && #[trigger] count_face(s, v) == 3 && #[trigger] count_face(s, w) == 2;
        assert(v == 1 || v == 2 || v == 3 || v == 4 || v == 5 || v == 6);
        assert(w == 1 || w == 2 || w == 3 || w == 4 || w == 5 || w == 6);
    }
    if is_full_house(s) {
        let v: u8 = if count_face(s, 1) == 3 { 1 } else if count_face(s, 2) == 3 { 2 } else if count_face(s, 3) == 3 {
            3
        } else if count_face(s, 4) == 3 { 4 } else if count_face(s, 5) == 3 { 5 } else { 6 };
        let w: u8 = if count_face(s, 1) == 2 { 1 } else if count_face(s, 2) == 2 { 2 } else if count_face(s, 3) == 2 {
            3
        } else if count_face(s, 4) == 2 { 4 } else if count_face(s, 5) == 2 { 5 } else { 6 };
        assert(count_face(s, v) == 3 && count_face(s, w) == 2);
    }
}

/// Count how often each value `0..=6` occurs in `values`.
pub fn face_counts(values: &[u8]) -> (counts: Vec<usize>)
    requires
        forall|i: int| 0 <= i < values@.len() ==> #[trigger] values@[i] <= 6,
    ensures
        counts@.len() == 7,
        forall|v: int| 0 <= v < 7 ==> #[trigger] counts@[v] == count_face(values@, v as u8),
{
    let mut counts: Vec<usize> = vec![0, 0, 0, 0, 0, 0, 0];
    let n = values.len();
    let mut i: usize = 0;
    while i < n
        invariant
            n == values@.len(),
            i <= n,
            counts@.len() == 7,
            forall|j: int| 0 <= j < values@.len() ==> #[trigger] values@[j] <= 6,
            forall|v: int| 0 <= v < 7 ==> #[trigger] counts@[v] == count_face(values@.take(i as int), v as u8),
        decreases n - i,
    {
        let ghost prev = values@.take(i as int);
        let ghost next = values@.take(i as int + 1);
        assert(next.drop_last() =~= prev);
        assert(next.last() == values@[i as int]);
        proof {
            lemma_count_face_le_len(prev, values@[i as int]);
        }
        let x = values[i] as usize;
        let c = counts[x];
        counts.set(x, c + 1);
        assert forall|v: int| 0 <= v < 7 implies #[trigger] counts@[v] == count_face(next, v as u8) by {
            if v == x as int {
                assert(count_face(next, v as u8) == count_face(prev, v as u8) + 1);
            } else {
                assert((v as u8) != next.last());
            }
        }
        i += 1;
    }
    assert(values@.take(n as int) =~= values@);
    counts
}

/// Sum of all values (face values, so the sum fits a `u32` whenever six
/// times the number of values does).
pub fn face_sum(values: &[u8]) -> (total: u32)
    requires
        6 * values@.len() <= u32::MAX,
        forall|i: int| 0 <= i < values@.len() ==> #[trigger] values@[i] <= 6,
    ensures
        total == sum_faces(values@),
{
    let n = values.len();
    let mut total: u32 = 0;
    let mut i: usize = 0;
    while i < n
        invariant
            n == values@.len(),
            6 * n <= u32::MAX,
            i <= n,
            forall|j: int| 0 <= j < values@.len() ==> #[trigger] values@[j] <= 6,
            total == sum_faces(values@.take(i as int)),
            total <= 6 * i,
        decreases n - i,
    {
        assert(values@.take(i as int + 1).drop_last() =~= values@.take(i as int));
        total = total + values[i] as u32;
        i += 1;
    }
    assert(values@.take(n as int) =~= values@);
    total
}

/// `counts[v]` for each face `v` in `1..=6` reaches `n`.
fn any_count_at_least(counts: &Vec<usize>, n: usize) -> (b: bool)
    requires
        counts@.len() == 7,
    ensures
        b <==> (exists|v: int| 1 <= v <= 6 && #[trigger] counts@[v] >= n),
{
    let mut v: usize = 1;
    while v <= 6
        invariant
            1 <= v <= 7,
            counts@.len() == 7,
            forall|w: int| 1 <= w < v ==> #[trigger] counts@[w] < n,
        decreases 7 - v,
    {
        if counts[v] >= n {
            return true;
        }
        v += 1;
    }
    false
}

/// Some face in `1..=6` has exactly count `n`.
fn any_count_exactly(counts: &Vec<usize>, n: usize) -> (b: bool)
    requires
        counts@.len() == 7,
    ensures
        b <==> (exists|v: int| 1 <= v <= 6 && #[trigger] counts@[v] == n),
{
    let mut v: usize = 1;
    while v <= 6
        invariant
            1 <= v <= 7,
            counts@.len() == 7,
            forall|w: int| 1 <= w < v ==> #[trigger] counts@[w] != n,
        decreases 7 - v,
    {
        if counts[v] == n {
            return true;
        }
        v += 1;
    }
    false
}

/// Every face from `lo` to `hi` has a positive count.
fn all_present(counts: &Vec<usize>, lo: usize, hi: usize) -> (b: bool)
    requires
        counts@.len() == 7,
        1 <= lo <= hi <= 6,
    ensures
        b <==> (forall|v: int| lo <= v <= hi ==> #[trigger] counts@[v] >= 1),
{
    let mut v: usize = lo;
    while v <= hi
        invariant
            lo <= v <= hi + 1,
            hi <= 6,
            counts@.len() == 7,
            forall|w: int| lo <= w < v ==> #[trigger] counts@[w] >= 1,
        decreases hi + 1 - v,
    {
        if counts[v] == 0 {
            return false;
        }
        v += 1;
    }
    true
}

/// Connects the count table with the face-count predicates.
proof fn lemma_counts_predicates(s: Seq<u8>, counts: Seq<usize>)
    requires
        counts.len() == 7,
        forall|v: int| 0 <= v < 7 ==> #[trigger] counts[v] == count_face(s, v as u8),
    ensures
        forall|n: nat|
            some_count_at_least(s, n) <==> (exists|v: int| 1 <= v <= 6 && #[trigger] counts[v] >= n),
        forall|n: nat|
            some_count_exactly(s, n) <==> (exists|v: int| 1 <= v <= 6 && #[trigger] counts[v] == n),
        forall|lo: u8, hi: u8|
            1 <= lo <= hi <= 6 ==> (shows_run(s, lo, hi) <==> (forall|v: int|
                lo <= v <= hi ==> #[trigger] counts[v] >= 1)),
{
    assert(counts[1] == count_face(s, 1));
    assert(counts[2] == count_face(s, 2));
    assert(counts[3] == count_face(s, 3));
    assert(counts[4] == count_face(s, 4));
    assert(counts[5] == count_face(s, 5));
    assert(counts[6] == count_face(s, 6));
    assert forall|lo: u8, hi: u8| 1 <= lo <= hi <= 6 implies (shows_run(s, lo, hi) <==> (forall|v: int|
        lo <= v <= hi ==> #[trigger] counts[v] >= 1)) by {
        if shows_run(s, lo, hi) {
            assert forall|v: int| lo <= v <= hi implies #[trigger] counts[v] >= 1 by {
                assert(count_face(s, v as u8) >= 1);
            }
        }
        if forall|v: int| lo <= v <= hi ==> #[trigger] counts[v] >= 1 {
            assert forall|v: u8| lo <= v <= hi implies count_face(s, v) >= 1 by {
                assert(counts[v as int] >= 1);
            }
        }
    }
}

/// Calculate the score the dice are worth in a category, following the
/// Kniffel rules: the upper section counts the matching faces, three and
/// four of a kind and chance score the sum of all dice, full house 25,
/// small straight 30, large straight 40 and Yatzy 50 points.
pub fn calculate_score(category: ScoreCategory, dice: &DiceSet) -> (score: Score)
    ensures
        score@ == category_points(category, dice@),
{
    let values = dice.values();
    let counts = face_counts(values.as_slice());
    let sum = face_sum(values.as_slice());
    proof {
        lemma_counts_predicates(dice@, counts@);
        lemma_count_face_le_len(dice@, 1);
        lemma_count_face_le_len(dice@, 2);
        lemma_count_face_le_len(dice@, 3);
        lemma_count_face_le_len(dice@, 4);
        lemma_count_face_le_len(dice@, 5);
        lemma_count_face_le_len(dice@, 6);
    }
    let points: u32 = match category {
        ScoreCategory::Ones => counts[1] as u32,
        ScoreCategory::Twos => 2 * counts[2] as u32,
        ScoreCategory::Threes => 3 * counts[3] as u32,
        ScoreCategory::Fours => 4 * counts[4] as u32,
        ScoreCategory::Fives => 5 * counts[5] as u32,
        ScoreCategory::Sixes => 6 * counts[6] as u32,
        ScoreCategory::ThreeOfAKind => if any_count_at_least(&counts, 3) {
            sum
        } else {
            0
        },
        ScoreCategory::FourOfAKind => if any_count_at_least(&counts, 4) {
            sum
        } else {
            0
        },
        ScoreCategory::FullHouse => if any_count_exactly(&counts, 3) && any_count_exactly(&counts, 2) {
            25
        } else {
            0
        },
        ScoreCategory::SmallStraight => if all_present(&counts, 1, 4) || all_present(&counts, 2, 5)
            || all_present(&counts, 3, 6) {
            30
        } else {
            0
        },
        ScoreCategory::LargeStraight => if all_present(&counts, 1, 5) || all_present(&counts, 2, 6) {
            40
        } else {
            0
        },
        ScoreCategory::Yatzy => if any_count_exactly(&counts, 5) {
            50
        } else {
            0
        },
        ScoreCategory::Chance => sum,
    };
    Score::new(points)
}

} // verus!
