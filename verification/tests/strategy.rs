use yatzy::models::category::ScoreCategory;
use yatzy::models::dice_set::DiceSet;
use yatzy::models::hold_mask::HoldMask;
use yatzy::models::player::Player;
use yatzy::models::player_color::PlayerColor;
use yatzy::models::player_name::PlayerName;
use yatzy::models::player_type::PlayerType;
use yatzy::models::roll_count::RollCount;
use yatzy::models::score::Score;
use yatzy::models::scorecard::Scorecard;
use yatzy::rules::cross_out::CrossOutAdvisor;
use yatzy::rules::scoring::calculate_score;
use yatzy::rules::validation::is_valid;
use yatzy::rules::validation::must_cross_out;
use yatzy::rules::validation::potential_score;
use yatzy::rules::validation::valid_categories;
use yatzy::strategy::computer_ai::AiDecision;
use yatzy::strategy::computer_ai::ComputerAi;
use yatzy::strategy::expected_value::best_category_choice;
use yatzy::strategy::expected_value::best_hold_decision;
use yatzy::strategy::probability::Probability;
use yatzy::strategy::probability::probability_of_category_score;
use yatzy::strategy::probability::probability_of_face;
use yatzy::strategy::probability::probability_of_full_house;
use yatzy::strategy::probability::probability_of_n_of_a_kind;
use yatzy::strategy::probability::probability_of_straight;
use yatzy::strategy::probability::probability_of_yatzy;

fn dice(values: [u8; 5]) -> DiceSet {
    DiceSet::from_values(values).unwrap()
}

fn value(p: Probability) -> f64 {
    p.numerator() as f64 / p.denominator() as f64
}

// Validation

#[test]
fn is_valid_ones() {
    let d = dice([1, 1, 3, 4, 6]);
    assert!(is_valid(ScoreCategory::Ones, &d));
}

#[test]
fn is_invalid_ones() {
    let d = dice([2, 3, 4, 5, 6]);
    assert!(!is_valid(ScoreCategory::Ones, &d));
}

#[test]
fn is_valid_yatzy() {
    let d = dice([5, 5, 5, 5, 5]);
    assert!(is_valid(ScoreCategory::Yatzy, &d));
}

#[test]
fn is_invalid_yatzy() {
    let d = dice([1, 2, 3, 4, 5]);
    assert!(!is_valid(ScoreCategory::Yatzy, &d));
}

#[test]
fn chance_always_valid() {
    let d = dice([1, 1, 1, 1, 1]);
    assert!(is_valid(ScoreCategory::Chance, &d));
}

#[test]
fn valid_categories_lists_all_positive() {
    let d = dice([3, 3, 3, 3, 6]);
    let valid = valid_categories(&d);
    assert!(valid.contains(&ScoreCategory::Threes));
    assert!(valid.contains(&ScoreCategory::ThreeOfAKind));
    assert!(valid.contains(&ScoreCategory::FourOfAKind));
    assert!(valid.contains(&ScoreCategory::Chance));
    // No full house (four of a kind, not 3+2)
    assert!(!valid.contains(&ScoreCategory::FullHouse));
}

#[test]
fn must_cross_out_true() {
    // Chance always scores the sum, so the dice never force a cross-out.
    let d = dice([1, 2, 3, 4, 6]);
    assert!(!must_cross_out(&d));
}

#[test]
fn potential_score_for_category() {
    let d = dice([6, 6, 6, 6, 6]);
    assert_eq!(potential_score(ScoreCategory::Yatzy, &d), Score::new(50));
    assert_eq!(potential_score(ScoreCategory::Sixes, &d), Score::new(30));
}

// Scoring

#[test]
fn scoring_examples() {
    let full_house = dice([2, 2, 5, 5, 5]);
    assert_eq!(calculate_score(ScoreCategory::FullHouse, &full_house), Score::new(25));
    assert_eq!(calculate_score(ScoreCategory::ThreeOfAKind, &full_house), Score::new(19));
    assert_eq!(calculate_score(ScoreCategory::FourOfAKind, &full_house), Score::zero());
    let small = dice([1, 3, 2, 4, 6]);
    assert_eq!(calculate_score(ScoreCategory::SmallStraight, &small), Score::new(30));
    assert_eq!(calculate_score(ScoreCategory::LargeStraight, &small), Score::zero());
    let large = dice([2, 3, 4, 5, 6]);
    assert_eq!(calculate_score(ScoreCategory::LargeStraight, &large), Score::new(40));
    assert_eq!(calculate_score(ScoreCategory::Chance, &large), Score::new(20));
    let yatzy = dice([4, 4, 4, 4, 4]);
    assert_eq!(calculate_score(ScoreCategory::Yatzy, &yatzy), Score::new(50));
    assert_eq!(calculate_score(ScoreCategory::Fours, &yatzy), Score::new(20));
}

// Cross-out advice

#[test]
fn cross_out_recommends_cheapest_empty_category() {
    let advisor = CrossOutAdvisor::new();
    let mut sc = Scorecard::new();
    assert_eq!(advisor.recommend_voluntary(&sc, &dice([1, 2, 3, 4, 6])).unwrap().category(), ScoreCategory::Ones);
    sc.enter(ScoreCategory::Ones, Score::new(2)).unwrap();
    assert_eq!(advisor.recommend_voluntary(&sc, &dice([1, 2, 3, 4, 6])).unwrap().category(), ScoreCategory::Twos);
    for cat in ScoreCategory::ALL {
        let _ = sc.cross_out(cat);
    }
    assert!(advisor.recommend_voluntary(&sc, &dice([1, 2, 3, 4, 6])).is_none());
}

// Computer AI

fn make_scorecard() -> Scorecard {
    let player = Player::new(PlayerName::new("Test").unwrap(), PlayerColor::red(), PlayerType::Human);
    player.scorecard().clone()
}

#[test]
fn decide_yatzy_enters_score() {
    let ai = ComputerAi::new();
    let dice = dice([5, 5, 5, 5, 5]);
    let scorecard = make_scorecard();
    let decision = ai.decide(&dice, &scorecard, RollCount::first()).unwrap();
    // Yatzy (50 points) is so good, AI should enter it immediately
    match decision {
        AiDecision::EnterScore { category, score } => {
            assert_eq!(category, ScoreCategory::Yatzy);
            assert_eq!(score, Score::new(50));
        }
        AiDecision::RollAgain { .. } => {}
        AiDecision::CrossOut { .. } => panic!("should not cross out with Yatzy"),
    }
}

#[test]
fn decide_rolls_exhausted_enters_best() {
    let ai = ComputerAi::new();
    let dice = dice([3, 3, 3, 3, 3]);
    let scorecard = make_scorecard();
    let decision = ai.decide(&dice, &scorecard, RollCount::new(3).unwrap()).unwrap();
    match decision {
        AiDecision::EnterScore { category, score } => {
            // Yatzy (50) is the highest-scoring category for five 3s
            assert_eq!(category, ScoreCategory::Yatzy);
            assert_eq!(score, Score::new(50));
        }
        _ => panic!("should enter score when rolls exhausted"),
    }
}

#[test]
fn decide_rolls_exhausted_crosses_out_when_zero() {
    let ai = ComputerAi::new();
    let dice = dice([1, 2, 3, 5, 6]);
    let mut scorecard = make_scorecard();
    // Fill all categories that would score positively
    for cat in ScoreCategory::ALL {
        if calculate_score(cat, &dice).get() > 0 {
            scorecard.enter(cat, Score::new(10)).unwrap();
        }
    }
    let decision = ai.decide(&dice, &scorecard, RollCount::new(3).unwrap()).unwrap();
    match decision {
        AiDecision::CrossOut { .. } => {}
        _ => panic!("should cross out when no positive score available"),
    }
}

#[test]
fn decide_low_score_rolls_again() {
    let ai = ComputerAi::new();
    let dice = dice([1, 2, 3, 5, 6]);
    let scorecard = make_scorecard();
    let decision = ai.decide(&dice, &scorecard, RollCount::first()).unwrap();
    // With a poor first roll, the AI should likely re-roll
    match decision {
        AiDecision::RollAgain { holds } => {
            // Should not hold all dice (that would be pointless)
            assert!(holds.held_count() < 5);
        }
        AiDecision::EnterScore { score, .. } => {
            // If entering, it should be a low score
            assert!(score.get() <= 17); // Chance = 17
        }
        _ => {}
    }
}

#[test]
fn hint_best_category() {
    let ai = ComputerAi::new();
    let dice = dice([6, 6, 6, 6, 6]);
    let scorecard = make_scorecard();
    let hint = ai.hint_best_category(&dice, &scorecard);
    assert_eq!(hint.category(), ScoreCategory::Yatzy);
    assert_eq!(hint.score(), Score::new(50));
}

#[test]
fn hint_best_holds() {
    let ai = ComputerAi::new();
    let dice = dice([1, 2, 3, 4, 5]);
    let scorecard = make_scorecard();
    let holds = ai.hint_best_holds(&dice, &scorecard, RollCount::first()).unwrap();
    // Should hold some dice for a large straight attempt
    assert!(holds.held_count() > 0);
}

#[test]
fn decide_full_house_enters() {
    let ai = ComputerAi::new();
    let dice = dice([3, 3, 3, 5, 5]);
    let scorecard = make_scorecard();
    let decision = ai.decide(&dice, &scorecard, RollCount::first()).unwrap();
    // Full house = 25 points, which is quite good for first roll
    match decision {
        AiDecision::EnterScore { category, score } => {
            if category == ScoreCategory::FullHouse {
                assert_eq!(score, Score::new(25));
            }
        }
        _ => {}
    }
}

#[test]
fn best_category_prefers_first_among_equals() {
    // Three of a kind and chance both score 15; the earlier category wins.
    let d = dice([1, 1, 1, 6, 6]);
    let mut sc = Scorecard::new();
    sc.enter(ScoreCategory::FullHouse, Score::new(25)).unwrap();
    let choice = best_category_choice(&d, &sc);
    assert_eq!(choice.category(), ScoreCategory::ThreeOfAKind);
    assert_eq!(choice.score(), Score::new(15));
}

#[test]
fn best_category_on_complete_scorecard_is_chance_with_zero() {
    let mut sc = Scorecard::new();
    for cat in ScoreCategory::ALL {
        sc.cross_out(cat).unwrap();
    }
    let choice = best_category_choice(&dice([6, 6, 6, 6, 6]), &sc);
    assert_eq!(choice.category(), ScoreCategory::Chance);
    assert_eq!(choice.score(), Score::zero());
}

#[test]
fn hold_all_when_only_yatzy_is_open() {
    let mut sc = Scorecard::new();
    for cat in ScoreCategory::ALL {
        if cat != ScoreCategory::Yatzy {
            sc.cross_out(cat).unwrap();
        }
    }
    let decision = best_hold_decision(&dice([2, 2, 2, 2, 2]), &sc, RollCount::first());
    assert_eq!(decision.holds(), HoldMask::all());
    assert_eq!(decision.expected_value().total_points(), 50);
    assert_eq!(decision.expected_value().outcomes(), 1);
}

// Probability

#[test]
fn probability_from_fraction() {
    let p = Probability::from_fraction(1, 6).unwrap();
    assert!((value(p) - 0.16667).abs() < 0.01);
}

#[test]
fn probability_from_fraction_zero_denominator() {
    assert!(Probability::from_fraction(1, 0).is_err());
}

#[test]
fn probability_from_fraction_above_one() {
    assert!(Probability::from_fraction(7, 6).is_err());
    assert!(Probability::from_fraction(6, 6).unwrap().is_certain());
}

#[test]
fn probability_zero_and_one() {
    assert!(Probability::zero().is_zero());
    assert!(Probability::one().is_certain());
}

#[test]
fn probability_complement() {
    let p = Probability::from_fraction(3, 10).unwrap();
    assert!((value(p.complement()) - 0.7).abs() < 0.001);
    assert_eq!(p.complement().complement(), p);
}

#[test]
fn probability_times() {
    let p = Probability::from_fraction(1, 2).unwrap().times(Probability::from_fraction(1, 3).unwrap());
    assert_eq!(p.numerator(), 1);
    assert_eq!(p.denominator(), 6);
}

#[test]
fn probability_of_face_one_die() {
    let p = probability_of_face(1, 6).unwrap();
    assert!((value(p) - 1.0 / 6.0).abs() < 0.001);
}

#[test]
fn probability_of_face_five_dice() {
    let p = probability_of_face(5, 6).unwrap();
    // P(at least one 6 in 5 dice) = 1 - (5/6)^5
    let expected = 1.0 - (5.0_f64 / 6.0_f64).powi(5);
    assert!((value(p) - expected).abs() < 0.001);
    assert_eq!(p.numerator(), 7776 - 3125);
    assert_eq!(p.denominator(), 7776);
}

#[test]
fn probability_of_yatzy_five_dice() {
    let p = probability_of_yatzy(5).unwrap();
    // There are 6 Yatzy outcomes out of 7776
    assert!((value(p) - 6.0 / 7776.0).abs() < 0.0001);
}

#[test]
fn probability_of_full_house_five_dice() {
    let p = probability_of_full_house(5).unwrap();
    // 300 full house outcomes out of 7776
    assert!((value(p) - 300.0 / 7776.0).abs() < 0.001);
}

#[test]
fn probability_of_straight_four_in_five() {
    let p = probability_of_straight(5, 4).unwrap();
    // Should be reasonably likely
    assert!(value(p) > 0.1);
}

#[test]
fn probability_of_n_of_a_kind_three_in_five() {
    let p = probability_of_n_of_a_kind(5, 3).unwrap();
    // Should be around 21.3%
    assert!(value(p) > 0.15 && value(p) < 0.25);
}

#[test]
fn probability_of_face_zero_dice() {
    let p = probability_of_face(0, 6).unwrap();
    assert!(p.is_zero());
}

#[test]
fn probability_of_category_score_with_all_held() {
    let d = dice([6, 6, 6, 6, 6]);
    let p = probability_of_category_score(&d, HoldMask::all(), ScoreCategory::Yatzy).unwrap();
    assert!(p.is_certain());
    let q = probability_of_category_score(&dice([1, 2, 3, 4, 6]), HoldMask::all(), ScoreCategory::Yatzy).unwrap();
    assert!(q.is_zero());
}

#[test]
fn probabilities_compare_by_value() {
    let half = Probability::from_fraction(1, 2).unwrap();
    let two_quarters = Probability::from_fraction(2, 4).unwrap();
    let third = Probability::from_fraction(1, 3).unwrap();
    assert_eq!(half, two_quarters);
    assert_ne!(half, third);
    assert!(third < half);
    assert!(half >= two_quarters);
    assert_eq!(Probability::from_fraction(0, 7).unwrap(), Probability::zero());
    assert_eq!(Probability::from_fraction(7, 7).unwrap(), Probability::one());
}
