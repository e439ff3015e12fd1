use yatzy::ui::models::roll_button_label::RollButtonLabel;
use yatzy::ui::models::ui_message::UiMessage;
use yatzy::models::dice_slot::DiceSlot;
use yatzy::models::face_value::FaceValue;
use yatzy::models::hold_mask::HoldMask;
use yatzy::models::turn_phase::TurnPhase;
use yatzy::ui::roll_flow::PickedUpDice;
use yatzy::ui::roll_flow::PickupAction;
use yatzy::ui::roll_flow::SlotVerification;
use yatzy::ui::roll_flow::fallback_after_entry;
use yatzy::ui::roll_flow::selection_action;
use yatzy::models::turn_action::TurnAction;
use yatzy::error::YatzyError;
use yatzy::models::category::ScoreCategory;
use yatzy::models::dice_color::DiceColor;
use yatzy::models::dice_set::DiceSet;
use yatzy::models::game_mode::GameMode;
use yatzy::models::game_settings::GameSettings;
use yatzy::models::player_color::PlayerColor;
use yatzy::models::player_type::PlayerType;
use yatzy::models::roll_count::RollCount;
use yatzy::models::score::Score;
use yatzy::models::score_entry::ScoreEntry;
use yatzy::models::scorecard::Scorecard;
use yatzy::ui::hints::hint_texts;
use yatzy::ui::hints::hold_hint_text;
use yatzy::ui::player_setup::PlayerSetupForm;
use yatzy::ui::scorecard_cells::next_empty_slot;
use yatzy::ui::scorecard_cells::score_cell;
use yatzy::ui::roll_flow::all_slots_verified;
use yatzy::ui::roll_flow::merge_roll_faces;
use yatzy::ui::roll_flow::react_to_roll_started;

// Roll button label

#[test]
fn text_roll() {
    assert!(!RollButtonLabel::Roll.localized().is_empty());
}

#[test]
fn text_reroll() {
    assert!(!RollButtonLabel::Reroll.localized().is_empty());
}

#[test]
fn text_last_roll() {
    assert!(!RollButtonLabel::LastRoll.localized().is_empty());
}

#[test]
fn sensitive_for_active_rolls() {
    assert!(RollButtonLabel::Roll.is_sensitive());
    assert!(RollButtonLabel::Reroll.is_sensitive());
    assert!(RollButtonLabel::LastRoll.is_sensitive());
}

#[test]
fn insensitive_for_inactive_states() {
    assert!(!RollButtonLabel::NoRollsLeft.is_sensitive());
    assert!(!RollButtonLabel::Rolling.is_sensitive());
    assert!(!RollButtonLabel::GameOver.is_sensitive());
}

#[test]
fn from_roll_count_zero() {
    assert_eq!(RollButtonLabel::from_roll_count(0), RollButtonLabel::Roll);
}

#[test]
fn from_roll_count_one() {
    assert_eq!(RollButtonLabel::from_roll_count(1), RollButtonLabel::Reroll);
}

#[test]
fn from_roll_count_two() {
    assert_eq!(RollButtonLabel::from_roll_count(2), RollButtonLabel::LastRoll);
}

#[test]
fn from_roll_count_three() {
    assert_eq!(RollButtonLabel::from_roll_count(3), RollButtonLabel::NoRollsLeft);
}

#[test]
fn roll_button_label_display() {
    assert!(!RollButtonLabel::Roll.to_string().is_empty());
}

#[test]
fn roll_button_label_keys() {
    assert_eq!(RollButtonLabel::LastRoll.fluent_key(), "roll-button-last");
    assert_eq!(RollButtonLabel::from_roll_count(200), RollButtonLabel::NoRollsLeft);
}

// UI message

#[test]
fn new_and_as_str() {
    let msg = UiMessage::new("Hello");
    assert_eq!(msg.as_str(), "Hello");
}

#[test]
fn ui_message_display() {
    let msg = UiMessage::new("Test message");
    assert_eq!(msg.to_string(), "Test message");
}

#[test]
fn ready_message() {
    let msg = UiMessage::ready();
    assert!(!msg.as_str().is_empty());
}

#[test]
fn devices_found_includes_count() {
    let msg = UiMessage::devices_found(3);
    assert!(msg.as_str().contains('3'));
}

#[test]
fn dice_connected_includes_slot_and_name() {
    let msg = UiMessage::dice_connected(2, "GoDice_001234");
    assert!(msg.as_str().contains('2'));
    assert!(msg.as_str().contains("GoDice_001234"));
}

#[test]
fn hold_toggled_held() {
    let msg = UiMessage::hold_toggled(1, true);
    assert!(msg.as_str().contains('1'));
    assert!(!msg.as_str().is_empty());
}

#[test]
fn hold_toggled_released() {
    let msg = UiMessage::hold_toggled(1, false);
    assert!(msg.as_str().contains('1'));
    assert!(!msg.as_str().is_empty());
}

#[test]
fn from_string() {
    let msg = UiMessage::from("test".to_string());
    assert_eq!(msg.as_str(), "test");
}

#[test]
fn from_str() {
    let msg = UiMessage::from("test");
    assert_eq!(msg.as_str(), "test");
}

#[test]
fn messages_render_numbers_in_decimal() {
    assert_eq!(UiMessage::devices_found(0).as_str(), "Found 0 dice");
    assert_eq!(UiMessage::devices_found(1205).as_str(), "Found 1205 dice");
    assert_eq!(UiMessage::score_entered("Ann", "Chance", 27).as_str(), "Ann scored 27 in Chance");
    assert_eq!(UiMessage::dice_disconnected(4).as_str(), "Dice 4 disconnected");
    assert_eq!(UiMessage::hold_toggled(255, false).as_str(), "Dice 255 released");
    assert_eq!(UiMessage::connection_failed("D", "timeout").as_str(), "Connection to D failed: timeout");
    assert_eq!(UiMessage::new("a"), UiMessage::from("a"));
}

// Roll flow

fn face(v: u8) -> FaceValue {
    FaceValue::new(v).unwrap()
}

#[test]
fn merge_roll_faces_falls_back_to_previous_then_one() {
    let reported = [Some(face(6)), None, None, Some(face(2)), None];
    let current = [Some(face(1)), Some(face(4)), None, Some(face(3)), Some(face(5))];
    let merged = merge_roll_faces(&reported, &current);
    assert_eq!(merged, [Some(face(6)), Some(face(4)), Some(face(1)), Some(face(2)), Some(face(5))]);
}

#[test]
fn roll_started_reactions() {
    let first = react_to_roll_started(Some(TurnPhase::AwaitingRoll), HoldMask::none());
    assert!(first.execute_roll && !first.set_pending_holds && first.show_rolling);
    let pickup = react_to_roll_started(Some(TurnPhase::Holding), HoldMask::none());
    assert!(!pickup.execute_roll && pickup.set_pending_holds && !pickup.show_rolling);
    let mut holds = HoldMask::none();
    holds.set_held(DiceSlot::new(0).unwrap(), true);
    let reroll = react_to_roll_started(Some(TurnPhase::Holding), holds);
    assert!(reroll.set_pending_holds && reroll.show_rolling);
    let no_game = react_to_roll_started(None, HoldMask::none());
    assert!(!no_game.execute_roll && !no_game.set_pending_holds && no_game.show_rolling);
}

#[test]
fn picked_up_dice_are_rerolled_others_held() {
    let mut picked = PickedUpDice::new();
    picked.note_pickup(DiceSlot::new(1).unwrap());
    picked.note_pickup(DiceSlot::new(3).unwrap());
    picked.note_pickup(DiceSlot::new(1).unwrap());
    assert!(picked.contains(DiceSlot::new(3).unwrap()));
    assert!(!picked.contains(DiceSlot::new(0).unwrap()));
    let holds = picked.auto_hold_mask();
    assert_eq!(holds, HoldMask::from_flags([true, false, true, false, true]));
    picked.clear();
    assert_eq!(picked.auto_hold_mask(), HoldMask::all());
}

#[test]
fn start_needs_every_die_verified() {
    assert!(all_slots_verified(&[true; 5]));
    assert!(!all_slots_verified(&[true, true, false, true, true]));
}

// Player setup form

#[test]
fn setup_form_starts_with_one_default_player() {
    let form = PlayerSetupForm::new();
    assert_eq!(form.player_count(), 1);
    let row = form.row(0).unwrap();
    assert_eq!(row.name(), "Spieler 1");
    assert_eq!(row.color(), PlayerColor::red());
    assert_eq!(row.player_type(), PlayerType::Human);
}

#[test]
fn setup_form_adds_up_to_six_players() {
    let mut form = PlayerSetupForm::new();
    for expected in 1..6 {
        assert_eq!(form.add_player(), Some(expected));
    }
    assert_eq!(form.add_player(), None);
    assert_eq!(form.player_count(), 6);
    assert_eq!(form.row(5).unwrap().name(), "Spieler 6");
    assert_eq!(form.row(5).unwrap().color(), PlayerColor::purple());
}

#[test]
fn setup_form_keeps_last_player() {
    let mut form = PlayerSetupForm::new();
    assert!(!form.remove_player(0));
    form.add_player();
    assert!(!form.remove_player(2));
    assert!(form.remove_player(0));
    assert_eq!(form.player_count(), 1);
    assert_eq!(form.row(0).unwrap().name(), "Spieler 2");
}

#[test]
fn setup_form_collects_settings() {
    let mut form = PlayerSetupForm::new();
    form.add_player();
    form.set_name(1, "Bob");
    form.set_choice(1, PlayerColor::cyan(), PlayerType::Computer);
    let settings = form.collect_settings().unwrap();
    assert_eq!(settings.game_mode(), GameMode::MultiPlayer);
    assert_eq!(settings.players()[1].name().as_str(), "Bob");
    assert_eq!(settings.players()[1].player_type(), PlayerType::Computer);
    form.set_name(0, "");
    assert!(form.collect_settings().is_err());
}

#[test]
fn setup_form_loads_settings() {
    let mut form = PlayerSetupForm::new();
    form.load_settings(&GameSettings::new(GameMode::SinglePlayer, Vec::new()));
    assert_eq!(form.player_count(), 1);
    form.load_settings(&GameSettings::default_single_player());
    let settings = form.collect_settings().unwrap();
    assert_eq!(settings.game_mode(), GameMode::SinglePlayer);
    assert_eq!(settings.players()[0].name().as_str(), "Spieler 1");
}

// Hints and scorecard cells

fn dice(values: [u8; 5]) -> DiceSet {
    DiceSet::from_values(values).unwrap()
}

#[test]
fn hold_hint_texts() {
    let d = dice([3, 1, 3, 5, 2]);
    assert_eq!(hold_hint_text(&d, HoldMask::all()), "Keep all dice");
    assert_eq!(hold_hint_text(&d, HoldMask::none()), "Re-roll all dice");
    assert_eq!(hold_hint_text(&d, HoldMask::from_flags([true, false, true, true, false])), "Keep 3, 3, 5");
    assert_eq!(hold_hint_text(&d, HoldMask::from_flags([false, false, false, false, true])), "Keep 2");
}

#[test]
fn hint_panel_texts() {
    let sc = Scorecard::new();
    let hints = hint_texts(&dice([6, 6, 6, 6, 6]), &sc, RollCount::new(3).unwrap());
    assert_eq!(hints.category, "Best category: Yatzy");
    assert_eq!(hints.score, "50 points");
    assert_eq!(hints.holds, "No more rolls");
}

#[test]
fn score_cells() {
    let filled = score_cell(ScoreEntry::Filled(Score::new(25)), 0, 0, ScoreCategory::FullHouse, Some((0, ScoreCategory::FullHouse)));
    assert_eq!(filled.text, "25");
    assert!(filled.filled && filled.active && !filled.clickable && filled.recent);
    let empty = score_cell(ScoreEntry::Empty, 1, 0, ScoreCategory::Ones, None);
    assert_eq!(empty.text, "");
    assert!(!empty.active && !empty.clickable && !empty.recent);
    let open = score_cell(ScoreEntry::Empty, 0, 0, ScoreCategory::Ones, Some((1, ScoreCategory::Ones)));
    assert!(open.clickable && !open.recent);
    let crossed = score_cell(ScoreEntry::CrossedOut, 0, 1, ScoreCategory::Yatzy, None);
    assert_eq!(crossed.text, "—");
    assert!(crossed.crossed_out && crossed.filled);
}

#[test]
fn next_empty_slot_on_setup_screen() {
    assert_eq!(next_empty_slot(&[None; 5]), Some(DiceSlot::new(0).unwrap()));
    let colors = [Some(DiceColor::Red), Some(DiceColor::Blue), None, Some(DiceColor::Green), None];
    assert_eq!(next_empty_slot(&colors), Some(DiceSlot::new(2).unwrap()));
    assert_eq!(next_empty_slot(&[Some(DiceColor::Black); 5]), None);
}

#[test]
fn pickups_only_count_while_holding() {
    let mut picked = PickedUpDice::new();
    assert!(!picked.on_pickup(Some(TurnPhase::Rolling), DiceSlot::new(0).unwrap()));
    assert!(!picked.on_pickup(None, DiceSlot::new(0).unwrap()));
    assert!(!picked.contains(DiceSlot::new(0).unwrap()));
    assert!(picked.on_pickup(Some(TurnPhase::Holding), DiceSlot::new(4).unwrap()));
    let actions = picked.window_closed();
    let mask = HoldMask::from_flags([true, true, true, true, false]);
    assert_eq!(actions, vec![PickupAction::Hold(mask), PickupAction::MarkHeldStable(mask), PickupAction::Roll]);
    assert!(!picked.contains(DiceSlot::new(4).unwrap()));
}

#[test]
fn category_selection_enters_then_falls_back() {
    let action = selection_action(ScoreCategory::Fives, Ok(Score::new(15)));
    assert_eq!(action, Ok(TurnAction::EnterScore { category: ScoreCategory::Fives, score: Score::new(15) }));
    assert_eq!(selection_action(ScoreCategory::Fives, Err(YatzyError::GameOver)), Err(YatzyError::GameOver));
    assert_eq!(fallback_after_entry(ScoreCategory::Fives, true), Some(TurnAction::CrossOut { category: ScoreCategory::Fives }));
    assert_eq!(fallback_after_entry(ScoreCategory::Fives, false), None);
}

#[test]
fn slot_verification_and_auto_swap() {
    let mut v = SlotVerification::new();
    let s = |i: u8| DiceSlot::new(i).unwrap();
    v.on_dice_assigned(s(0));
    assert!(v.swap_due(s(0)));
    for i in 0..4 {
        assert!(!v.on_dice_stable(s(i), true));
    }
    assert!(!v.swap_due(s(0)));
    assert!(!v.on_dice_stable(s(4), false));
    assert!(v.all_verified());
    v.on_dice_assigned(s(2));
    assert!(v.swap_due(s(2)));
    assert!(v.on_dice_stable(s(2), true));
}
