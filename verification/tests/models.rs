use yatzy::error::YatzyError;
use yatzy::models::category::ScoreCategory;
use yatzy::models::roll_count::RollCount;
use yatzy::models::category_section::CategorySection;
use yatzy::models::dice_color::DiceColor;
use yatzy::models::dice_set::DiceSet;
use yatzy::models::dice_set::faces_to_dice_set;
use yatzy::models::dice_slot::DiceSlot;
use yatzy::models::face_value::FaceValue;
use yatzy::models::game_mode::GameMode;
use yatzy::models::game_settings::GameSettings;
use yatzy::models::game_settings::PlayerSettingsEntry;
use yatzy::models::game_status::GameStatus;
use yatzy::models::highscore_entry::HighscoreEntry;
use yatzy::models::hold_mask::HoldMask;
use yatzy::models::led_color::LedColor;
use yatzy::models::player::Player;
use yatzy::models::player_color::PlayerColor;
use yatzy::models::player_index::PlayerIndex;
use yatzy::models::player_index::validate_index;
use yatzy::models::player_name::PlayerName;
use yatzy::models::player_type::PlayerType;
use yatzy::models::reconnection_request::ReconnectionRequest;
use yatzy::models::roll_result::RollResult;
use yatzy::models::round_number::RoundNumber;
use yatzy::models::score::Score;
use yatzy::models::score_entry::ScoreEntry;
use yatzy::models::scorecard::Scorecard;
use yatzy::models::standing::StandingEntry;
use yatzy::models::turn_action::TurnAction;
use yatzy::models::turn_transition::TurnTransition;

// Category

#[test]
fn all_has_13_categories() {
    assert_eq!(ScoreCategory::ALL.len(), 13);
}

#[test]
fn section_upper() {
    assert_eq!(ScoreCategory::Ones.section(), CategorySection::Upper);
    assert_eq!(ScoreCategory::Sixes.section(), CategorySection::Upper);
}

#[test]
fn section_lower() {
    assert_eq!(ScoreCategory::ThreeOfAKind.section(), CategorySection::Lower);
    assert_eq!(ScoreCategory::Chance.section(), CategorySection::Lower);
}

#[test]
fn index_is_consistent() {
    for (i, cat) in ScoreCategory::ALL.iter().enumerate() {
        assert_eq!(cat.index(), i);
    }
}

#[test]
fn display_not_empty() {
    assert!(!ScoreCategory::Ones.to_string().is_empty());
    assert!(!ScoreCategory::Yatzy.to_string().is_empty());
    assert!(!ScoreCategory::FullHouse.to_string().is_empty());
}

#[test]
fn category_texts_and_keys() {
    assert_eq!(ScoreCategory::Ones.to_string(), "Ones");
    assert_eq!(ScoreCategory::Ones.fluent_key(), "category-ones");
    assert_eq!(ScoreCategory::Chance.localized(), ScoreCategory::Chance.to_string());
}

// Game mode

#[test]
fn hints_enabled_single_player() {
    assert!(GameMode::SinglePlayer.hints_enabled());
}

#[test]
fn hints_disabled_multi_player() {
    assert!(!GameMode::MultiPlayer.hints_enabled());
}

#[test]
fn turn_transitions_only_multi_player() {
    assert!(!GameMode::SinglePlayer.requires_turn_transitions());
    assert!(GameMode::MultiPlayer.requires_turn_transitions());
}

#[test]
fn display_single_player() {
    assert_eq!(GameMode::SinglePlayer.to_string(), GameMode::SinglePlayer.localized());
}

#[test]
fn display_multi_player() {
    assert_eq!(GameMode::MultiPlayer.to_string(), GameMode::MultiPlayer.localized());
}

#[test]
fn modes_are_distinct() {
    assert_ne!(GameMode::SinglePlayer, GameMode::MultiPlayer);
}

// Game settings

#[test]
fn new_game_settings() {
    let settings = GameSettings::new(
        GameMode::MultiPlayer,
        vec![
            PlayerSettingsEntry::new(PlayerName::new("Alice").unwrap(), PlayerColor::red(), PlayerType::Human),
            PlayerSettingsEntry::new(PlayerName::new("Bob").unwrap(), PlayerColor::blue(), PlayerType::Human),
        ],
    );
    assert_eq!(settings.game_mode(), GameMode::MultiPlayer);
    assert_eq!(settings.player_count(), 2);
}

#[test]
fn default_single_player() {
    let settings = GameSettings::default_single_player();
    assert_eq!(settings.game_mode(), GameMode::SinglePlayer);
    assert_eq!(settings.player_count(), 1);
}

#[test]
fn default_is_single_player() {
    let settings = GameSettings::default();
    assert_eq!(settings.game_mode(), GameMode::SinglePlayer);
}

#[test]
fn player_settings_entry_accessors() {
    let entry = PlayerSettingsEntry::new(PlayerName::new("Carol").unwrap(), PlayerColor::green(), PlayerType::Computer);
    assert_eq!(entry.name().as_str(), "Carol");
    assert_eq!(entry.color(), PlayerColor::green());
    assert_eq!(entry.player_type(), PlayerType::Computer);
}

#[test]
fn default_single_player_entry() {
    let settings = GameSettings::default_single_player();
    let players = settings.players();
    assert_eq!(players[0].name().as_str(), "Spieler 1");
    assert_eq!(players[0].player_type(), PlayerType::Human);
}

// Game status

#[test]
fn display_setup() {
    assert_eq!(GameStatus::Setup.to_string(), GameStatus::Setup.localized());
}

#[test]
fn display_playing() {
    assert_eq!(GameStatus::Playing.to_string(), GameStatus::Playing.localized());
}

#[test]
fn display_game_over() {
    assert_eq!(GameStatus::GameOver.to_string(), GameStatus::GameOver.localized());
}

#[test]
fn statuses_are_distinct() {
    assert_ne!(GameStatus::Setup, GameStatus::Playing);
    assert_ne!(GameStatus::Playing, GameStatus::GameOver);
    assert_ne!(GameStatus::Setup, GameStatus::GameOver);
}

// Highscore entry

#[test]
fn new_entry_accessors() {
    let entry = HighscoreEntry::new("Alice", Score::new(250));
    assert_eq!(entry.player_name(), "Alice");
    assert_eq!(entry.score(), Score::new(250));
}

// Player

fn make_player() -> Player {
    Player::new(PlayerName::new("Alice").unwrap(), PlayerColor::red(), PlayerType::Human)
}

#[test]
fn new_player_has_empty_scorecard() {
    let p = make_player();
    assert!(!p.scorecard().is_complete());
    assert_eq!(p.grand_total(), Score::zero());
}

#[test]
fn is_computer() {
    let human = make_player();
    assert!(!human.is_computer());

    let computer = Player::new(PlayerName::new("CPU").unwrap(), PlayerColor::blue(), PlayerType::Computer);
    assert!(computer.is_computer());
}

#[test]
fn scorecard_mut_allows_entry() {
    let mut p = make_player();
    p.scorecard_mut().enter(ScoreCategory::Ones, Score::new(3)).unwrap();
    assert_eq!(p.grand_total(), Score::new(3));
}

#[test]
fn player_name_rejects_empty() {
    assert!(PlayerName::new("").is_err());
}

// Player color

#[test]
fn new_and_led_color() {
    let color = PlayerColor::new(LedColor::red());
    assert_eq!(color.led_color(), LedColor::red());
}

#[test]
fn defaults_has_6_colors() {
    assert_eq!(PlayerColor::defaults().len(), 6);
}

#[test]
fn all_defaults_are_distinct() {
    let defaults = PlayerColor::defaults();
    for i in 0..defaults.len() {
        for j in (i + 1)..defaults.len() {
            assert_ne!(defaults[i], defaults[j]);
        }
    }
}

#[test]
fn from_led_color() {
    let color: PlayerColor = LedColor::green().into();
    assert_eq!(color.led_color(), LedColor::green());
}

// Player index

#[test]
fn new_and_get() {
    assert_eq!(PlayerIndex::new(3).get(), 3);
}

#[test]
fn next_wrapping() {
    assert_eq!(PlayerIndex::new(0).next_wrapping(4), PlayerIndex::new(1));
    assert_eq!(PlayerIndex::new(3).next_wrapping(4), PlayerIndex::new(0));
}

#[test]
fn validate_index_ok() {
    assert!(validate_index(PlayerIndex::new(2), 4).is_ok());
}

#[test]
fn validate_index_out_of_bounds() {
    assert!(validate_index(PlayerIndex::new(4), 4).is_err());
}

#[test]
fn next_wrapping_cycles_through_all_players() {
    let mut index = PlayerIndex::new(0);
    for _ in 0..3 {
        index = index.next_wrapping(3);
    }
    assert_eq!(index, PlayerIndex::new(0));
}

// Reconnection request

#[test]
fn new_creates_request() {
    let request = ReconnectionRequest::new(DiceSlot::new(2).unwrap(), "GoDice_abc123");
    assert_eq!(request.slot(), DiceSlot::new(2).unwrap());
    assert_eq!(request.device_name(), "GoDice_abc123");
}

#[test]
fn slot_and_name_accessors() {
    let request = ReconnectionRequest::new(DiceSlot::new(0).unwrap(), "TestDevice");
    assert_eq!(request.slot().get(), 0);
    assert_eq!(request.device_name(), "TestDevice");
}

#[test]
fn reconnection_request_clone_is_equal() {
    let request = ReconnectionRequest::new(DiceSlot::new(4).unwrap(), "GoDice_xyz");
    assert_eq!(request.clone(), request);
}

// Roll result

#[test]
fn is_celebration_yatzy() {
    assert!(RollResult::Yatzy.is_celebration());
}

#[test]
fn is_celebration_full_house() {
    assert!(RollResult::FullHouse.is_celebration());
}

#[test]
fn is_celebration_large_straight() {
    assert!(RollResult::LargeStraight.is_celebration());
}

#[test]
fn is_celebration_small_straight() {
    assert!(RollResult::SmallStraight.is_celebration());
}

#[test]
fn is_celebration_four_of_a_kind() {
    assert!(RollResult::FourOfAKind.is_celebration());
}

#[test]
fn is_not_celebration_three_of_a_kind() {
    assert!(!RollResult::ThreeOfAKind.is_celebration());
}

#[test]
fn is_not_celebration_normal() {
    assert!(!RollResult::Normal.is_celebration());
}

#[test]
fn priority_ordering() {
    assert!(RollResult::Yatzy.priority() > RollResult::LargeStraight.priority());
    assert!(RollResult::LargeStraight.priority() > RollResult::FullHouse.priority());
    assert!(RollResult::FullHouse.priority() > RollResult::SmallStraight.priority());
    assert!(RollResult::SmallStraight.priority() > RollResult::FourOfAKind.priority());
    assert!(RollResult::FourOfAKind.priority() > RollResult::ThreeOfAKind.priority());
    assert!(RollResult::ThreeOfAKind.priority() > RollResult::Normal.priority());
}

#[test]
fn display_yatzy() {
    assert_eq!(RollResult::Yatzy.to_string(), RollResult::Yatzy.localized());
}

#[test]
fn display_full_house() {
    assert_eq!(RollResult::FullHouse.to_string(), RollResult::FullHouse.localized());
}

#[test]
fn display_large_straight() {
    assert_eq!(RollResult::LargeStraight.to_string(), RollResult::LargeStraight.localized());
}

#[test]
fn display_normal() {
    assert_eq!(RollResult::Normal.to_string(), RollResult::Normal.localized());
}

// Score entry

#[test]
fn empty_is_empty() {
    assert!(ScoreEntry::Empty.is_empty());
    assert!(!ScoreEntry::Empty.is_used());
}

#[test]
fn filled_is_used() {
    let entry = ScoreEntry::Filled(Score::new(30));
    assert!(!entry.is_empty());
    assert!(entry.is_used());
    assert_eq!(entry.score(), Score::new(30));
}

#[test]
fn crossed_out_is_used() {
    assert!(!ScoreEntry::CrossedOut.is_empty());
    assert!(ScoreEntry::CrossedOut.is_used());
    assert_eq!(ScoreEntry::CrossedOut.score(), Score::zero());
}

#[test]
fn default_is_empty() {
    assert_eq!(ScoreEntry::default(), ScoreEntry::Empty);
}

// Scorecard

#[test]
fn new_scorecard_is_empty() {
    let sc = Scorecard::new();
    for cat in ScoreCategory::ALL {
        assert!(!sc.is_filled(cat));
        assert_eq!(sc.score(cat), Score::zero());
    }
    assert!(!sc.is_complete());
}

#[test]
fn enter_score() {
    let mut sc = Scorecard::new();
    sc.enter(ScoreCategory::Ones, Score::new(3)).unwrap();
    assert!(sc.is_filled(ScoreCategory::Ones));
    assert_eq!(sc.score(ScoreCategory::Ones), Score::new(3));
}

#[test]
fn enter_already_filled_fails() {
    let mut sc = Scorecard::new();
    sc.enter(ScoreCategory::Ones, Score::new(3)).unwrap();
    assert!(sc.enter(ScoreCategory::Ones, Score::new(2)).is_err());
}

#[test]
fn cross_out() {
    let mut sc = Scorecard::new();
    sc.cross_out(ScoreCategory::Yatzy).unwrap();
    assert!(sc.is_filled(ScoreCategory::Yatzy));
    assert_eq!(sc.score(ScoreCategory::Yatzy), Score::zero());
}

#[test]
fn cross_out_already_filled_fails() {
    let mut sc = Scorecard::new();
    sc.enter(ScoreCategory::Yatzy, Score::new(50)).unwrap();
    assert!(sc.cross_out(ScoreCategory::Yatzy).is_err());
}

#[test]
fn upper_subtotal() {
    let mut sc = Scorecard::new();
    sc.enter(ScoreCategory::Ones, Score::new(3)).unwrap();
    sc.enter(ScoreCategory::Sixes, Score::new(18)).unwrap();
    assert_eq!(sc.upper_subtotal(), Score::new(21));
}

#[test]
fn upper_bonus_achieved() {
    let mut sc = Scorecard::new();
    sc.enter(ScoreCategory::Ones, Score::new(5)).unwrap();
    sc.enter(ScoreCategory::Twos, Score::new(10)).unwrap();
    sc.enter(ScoreCategory::Threes, Score::new(15)).unwrap();
    sc.enter(ScoreCategory::Fours, Score::new(20)).unwrap();
    sc.enter(ScoreCategory::Fives, Score::new(15)).unwrap();
    // Total: 65 >= 63
    assert_eq!(sc.upper_subtotal().get(), 65);
    assert_eq!(sc.upper_bonus(), Score::new(35));
    assert_eq!(sc.upper_bonus_remaining(), Score::zero());
}

#[test]
fn upper_bonus_not_achieved() {
    let mut sc = Scorecard::new();
    sc.enter(ScoreCategory::Ones, Score::new(3)).unwrap();
    assert_eq!(sc.upper_bonus(), Score::zero());
    assert_eq!(sc.upper_bonus_remaining(), Score::new(60));
}

#[test]
fn upper_bonus_exactly_at_threshold() {
    let mut sc = Scorecard::new();
    sc.enter(ScoreCategory::Threes, Score::new(9)).unwrap();
    sc.enter(ScoreCategory::Fours, Score::new(12)).unwrap();
    sc.enter(ScoreCategory::Fives, Score::new(15)).unwrap();
    sc.enter(ScoreCategory::Sixes, Score::new(24)).unwrap();
    sc.enter(ScoreCategory::Twos, Score::new(3)).unwrap();
    assert_eq!(sc.upper_subtotal(), Score::new(63));
    assert_eq!(sc.upper_bonus(), Score::new(35));
    assert_eq!(sc.upper_bonus_remaining(), Score::zero());
}

#[test]
fn lower_subtotal() {
    let mut sc = Scorecard::new();
    sc.enter(ScoreCategory::FullHouse, Score::new(25)).unwrap();
    sc.enter(ScoreCategory::Chance, Score::new(20)).unwrap();
    assert_eq!(sc.lower_subtotal(), Score::new(45));
}

#[test]
fn grand_total() {
    let mut sc = Scorecard::new();
    sc.enter(ScoreCategory::Ones, Score::new(5)).unwrap();
    sc.enter(ScoreCategory::Twos, Score::new(10)).unwrap();
    sc.enter(ScoreCategory::Threes, Score::new(15)).unwrap();
    sc.enter(ScoreCategory::Fours, Score::new(20)).unwrap();
    sc.enter(ScoreCategory::Fives, Score::new(15)).unwrap();
    // Upper: 65 + 35 bonus = 100
    sc.enter(ScoreCategory::Yatzy, Score::new(50)).unwrap();
    sc.enter(ScoreCategory::Chance, Score::new(20)).unwrap();
    // Lower: 70
    sc.add_yatzy_bonus();
    // Yatzy bonus: 100
    // Total: 100 + 70 + 100 = 270
    assert_eq!(sc.grand_total(), Score::new(270));
}

#[test]
fn is_complete() {
    let mut sc = Scorecard::new();
    for cat in ScoreCategory::ALL {
        sc.enter(cat, Score::new(10)).unwrap();
    }
    assert!(sc.is_complete());
}

#[test]
fn empty_categories() {
    let mut sc = Scorecard::new();
    sc.enter(ScoreCategory::Ones, Score::new(3)).unwrap();
    let empty = sc.empty_categories();
    assert_eq!(empty.len(), 12);
    assert!(!empty.contains(&ScoreCategory::Ones));
}

#[test]
fn yatzy_bonus() {
    let mut sc = Scorecard::new();
    sc.enter(ScoreCategory::Yatzy, Score::new(50)).unwrap();
    sc.add_yatzy_bonus();
    sc.add_yatzy_bonus();
    assert_eq!(sc.yatzy_bonus(), Score::new(200));
}

#[test]
fn complete_scorecard_has_no_empty_categories() {
    let mut sc = Scorecard::new();
    for cat in ScoreCategory::ALL {
        sc.cross_out(cat).unwrap();
    }
    assert!(sc.is_complete());
    assert!(sc.empty_categories().is_empty());
    assert_eq!(sc.grand_total(), Score::zero());
}

#[test]
fn filling_raises_total_by_at_least_the_score() {
    let mut sc = Scorecard::new();
    sc.enter(ScoreCategory::Sixes, Score::new(30)).unwrap();
    sc.enter(ScoreCategory::Fives, Score::new(25)).unwrap();
    let before = sc.grand_total().get();
    sc.enter(ScoreCategory::Fours, Score::new(8)).unwrap();
    // 63 reached: 8 points plus the 35 point bonus.
    assert_eq!(sc.grand_total().get(), before + 8 + 35);
    let before = sc.grand_total().get();
    sc.cross_out(ScoreCategory::Chance).unwrap();
    assert_eq!(sc.grand_total().get(), before);
}

#[test]
fn failed_enter_leaves_scorecard_unchanged() {
    let mut sc = Scorecard::new();
    sc.enter(ScoreCategory::Ones, Score::new(3)).unwrap();
    let before = sc.clone();
    assert!(sc.cross_out(ScoreCategory::Ones).is_err());
    assert_eq!(sc, before);
}

// Turn action

#[test]
fn roll_action_equality() {
    assert_eq!(TurnAction::Roll, TurnAction::Roll);
}

#[test]
fn hold_action_equality() {
    let holds = HoldMask::none();
    assert_eq!(TurnAction::Hold { holds }, TurnAction::Hold { holds });
}

#[test]
fn enter_score_action_equality() {
    assert_eq!(
        TurnAction::EnterScore {
            category: ScoreCategory::Ones,
            score: Score::new(3)
        },
        TurnAction::EnterScore {
            category: ScoreCategory::Ones,
            score: Score::new(3)
        }
    );
}

#[test]
fn cross_out_action_equality() {
    assert_eq!(
        TurnAction::CrossOut {
            category: ScoreCategory::Yatzy
        },
        TurnAction::CrossOut {
            category: ScoreCategory::Yatzy
        }
    );
}

#[test]
fn actions_are_distinct() {
    assert_ne!(TurnAction::Roll, TurnAction::Hold { holds: HoldMask::none() });
}

// Turn transition

fn make_named_player(name: &str, color: PlayerColor) -> Player {
    Player::new(PlayerName::new(name).unwrap(), color, PlayerType::Human)
}

#[test]
fn new_creates_transition() {
    let player = make_named_player("Alice", PlayerColor::red());
    let transition = TurnTransition::new(&player, PlayerIndex::new(0), RoundNumber::first());
    assert_eq!(transition.player_index(), PlayerIndex::new(0));
    assert_eq!(transition.player_name(), "Alice");
    assert_eq!(transition.player_color(), PlayerColor::red());
    assert_eq!(transition.round(), RoundNumber::first());
}

#[test]
fn player_name_returns_str() {
    let player = make_named_player("Bob", PlayerColor::blue());
    let transition = TurnTransition::new(&player, PlayerIndex::new(1), RoundNumber::first());
    assert_eq!(transition.player_name(), "Bob");
}

// Hold mask, dice set, dice color, standing

#[test]
fn toggle_twice_restores_mask() {
    let mut mask = HoldMask::none();
    let slot = DiceSlot::new(2).unwrap();
    mask.toggle(slot);
    assert!(mask.is_held(slot));
    assert_eq!(mask.held_count(), 1);
    assert_eq!(mask.reroll_count(), 4);
    mask.toggle(slot);
    assert_eq!(mask, HoldMask::none());
}

#[test]
fn dice_set_rejects_invalid_face() {
    assert!(DiceSet::from_values([1, 2, 3, 4, 7]).is_err());
    assert_eq!(DiceSet::from_values([1, 2, 3, 4, 5]).unwrap().values(), [1, 2, 3, 4, 5]);
}

#[test]
fn faces_to_dice_set_needs_all_faces() {
    let f = |v: u8| Some(FaceValue::new(v).unwrap());
    let complete = [f(6), f(6), f(1), f(2), f(3)];
    assert_eq!(faces_to_dice_set(&complete).unwrap().values(), [6, 6, 1, 2, 3]);
    let partial = [f(6), None, f(1), f(2), f(3)];
    assert!(faces_to_dice_set(&partial).is_none());
    let too_high = [f(6), f(9), f(1), f(2), f(3)];
    assert!(faces_to_dice_set(&too_high).is_none());
}

#[test]
fn dice_color_codes() {
    assert_eq!(DiceColor::from_code('G'), Some(DiceColor::Green));
    assert_eq!(DiceColor::from_code('R'), Some(DiceColor::Red));
    assert_eq!(DiceColor::from_code('x'), None);
    assert_eq!(DiceColor::Red.to_led(), LedColor::red());
    assert_eq!(DiceColor::Orange.to_led(), LedColor::new(255, 100, 0));
    assert_eq!(DiceColor::Blue.name(), "blue");
}

#[test]
fn standing_entry_accessors() {
    let player = make_player();
    let entry = StandingEntry::new(1, player.clone(), Score::new(120));
    assert_eq!(entry.rank(), 1);
    assert_eq!(entry.player(), &player);
    assert_eq!(entry.final_score(), Score::new(120));
}

// Errors

#[test]
fn each_validation_error_names_its_input() {
    assert_eq!(DiceSlot::new(5), Err(YatzyError::InvalidDiceSlot(5)));
    assert_eq!(RollCount::new(4), Err(YatzyError::InvalidRollCount(4)));
    assert_eq!(RoundNumber::new(14), Err(YatzyError::InvalidRoundNumber(14)));
    assert_eq!(validate_index(PlayerIndex::new(7), 3), Err(YatzyError::InvalidPlayerIndex(7)));
    assert_eq!(PlayerName::new(""), Err(YatzyError::EmptyPlayerName));
    assert_eq!(FaceValue::new(0), Err(YatzyError::InvalidFaceValue(0)));
    assert_eq!(DiceSet::from_values([1, 9, 0, 2, 3]), Err(YatzyError::InvalidFaceValue(9)));
    let mut sc = Scorecard::new();
    sc.cross_out(ScoreCategory::Chance).unwrap();
    assert_eq!(sc.enter(ScoreCategory::Chance, Score::new(5)), Err(YatzyError::CategoryAlreadyFilled(ScoreCategory::Chance)));
}
