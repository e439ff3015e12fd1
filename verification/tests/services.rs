use yatzy::models::dice_color::DiceColor;
use yatzy::models::dice_event::DiceEvent;
use yatzy::models::dice_slot::DiceSlot;
use yatzy::models::face_value::FaceValue;
use yatzy::models::hold_mask::HoldMask;
use yatzy::models::player::Player;
use yatzy::models::player_color::PlayerColor;
use yatzy::models::player_index::PlayerIndex;
use yatzy::models::player_name::PlayerName;
use yatzy::models::player_type::PlayerType;
use yatzy::models::reconnection_request::ReconnectionRequest;
use yatzy::services::event_bridge::EventBridge;
use yatzy::services::event_bridge::forward_detector_event;
use yatzy::services::event_bridge::parse_color_from_name;
use yatzy::services::game_event::GameEvent;
use yatzy::services::led_color_assignment::LedColorAssignment;
use yatzy::services::led_effect::LedEffect;
use yatzy::services::led_service::LedAction;
use yatzy::services::led_service::LedService;
use yatzy::services::reconnection_manager::ReconnectionManager;
use yatzy::services::roll_detector::RollDetector;
use yatzy::services::roll_detector::RollDetectorEvent;
use yatzy::services::roll_detector::RollState;
use yatzy::services::settings_store::SettingsStore;
use yatzy::services::slot_mapping::SlotMapping;

// LED color assignment

fn make_players() -> Vec<Player> {
    vec![
        Player::new(PlayerName::new("Alice").unwrap(), PlayerColor::red(), PlayerType::Human),
        Player::new(PlayerName::new("Bob").unwrap(), PlayerColor::blue(), PlayerType::Human),
        Player::new(PlayerName::new("Carol").unwrap(), PlayerColor::green(), PlayerType::Human),
    ]
}

#[test]
fn new_assigns_colors() {
    let players = make_players();
    let assignment = LedColorAssignment::new(&players);
    assert_eq!(assignment.player_count(), 3);
}

#[test]
fn color_for_valid_index() {
    let players = make_players();
    let assignment = LedColorAssignment::new(&players);
    assert_eq!(assignment.color_for(PlayerIndex::new(0)), Some(PlayerColor::red()));
    assert_eq!(assignment.color_for(PlayerIndex::new(1)), Some(PlayerColor::blue()));
    assert_eq!(assignment.color_for(PlayerIndex::new(2)), Some(PlayerColor::green()));
}

#[test]
fn color_for_out_of_range() {
    let players = make_players();
    let assignment = LedColorAssignment::new(&players);
    assert_eq!(assignment.color_for(PlayerIndex::new(3)), None);
}

#[test]
fn active_player_effect() {
    let players = make_players();
    let assignment = LedColorAssignment::new(&players);
    let effect = assignment.active_player_effect(PlayerIndex::new(0));
    assert!(effect.is_some());
    assert_eq!(effect.unwrap(), LedEffect::active_player(PlayerColor::red()));
}

#[test]
fn active_player_effect_out_of_range() {
    let players = make_players();
    let assignment = LedColorAssignment::new(&players);
    assert!(assignment.active_player_effect(PlayerIndex::new(10)).is_none());
}

#[test]
fn turn_transition_effect() {
    let players = make_players();
    let assignment = LedColorAssignment::new(&players);
    let effect = assignment.turn_transition_effect(PlayerIndex::new(1));
    assert!(effect.is_some());
    assert_eq!(
        effect.unwrap(),
        LedEffect::Celebrate {
            pulse_count: 2,
            color: PlayerColor::blue()
        }
    );
}

#[test]
fn all_off_effect() {
    assert_eq!(LedColorAssignment::all_off_effect(), LedEffect::all_off());
}

#[test]
fn has_distinct_colors_true() {
    let players = make_players();
    let assignment = LedColorAssignment::new(&players);
    assert!(assignment.has_distinct_colors());
}

#[test]
fn has_distinct_colors_false() {
    let players = vec![
        Player::new(PlayerName::new("Alice").unwrap(), PlayerColor::red(), PlayerType::Human),
        Player::new(PlayerName::new("Bob").unwrap(), PlayerColor::red(), PlayerType::Human),
    ];
    let assignment = LedColorAssignment::new(&players);
    assert!(!assignment.has_distinct_colors());
}

// LED service

#[test]
fn new_creates_service() {
    let mapping = SlotMapping::new();
    let _service = LedService::new(mapping);
}

#[test]
fn led_commands_only_for_assigned_dice() {
    let mut mapping = SlotMapping::new();
    mapping.assign(DiceSlot::new(0).unwrap(), "GoDice_A_R_v04");
    mapping.assign(DiceSlot::new(3).unwrap(), "GoDice_B_G_v04");
    let service = LedService::new(mapping);
    let commands = service.commands(&LedEffect::active_player(PlayerColor::red()));
    assert_eq!(commands.len(), 2);
    assert_eq!(commands[0].slot, DiceSlot::new(0).unwrap());
    assert_eq!(commands[1].slot, DiceSlot::new(3).unwrap());
    assert_eq!(commands[0].action, LedAction::SetColor(PlayerColor::red().led_color()));
    assert!(service.commands(&LedEffect::Off { slot: DiceSlot::new(1).unwrap() }).is_empty());
}

// Reconnection manager

#[test]
fn new_has_no_pending() {
    let manager = ReconnectionManager::new();
    assert!(!manager.has_pending());
    assert_eq!(manager.pending_count(), 0);
}

#[test]
fn register_disconnect_adds_pending() {
    let mut manager = ReconnectionManager::new();
    manager.register_disconnect(ReconnectionRequest::new(DiceSlot::new(2).unwrap(), "GoDice_abc"));
    assert!(manager.has_pending());
    assert_eq!(manager.pending_count(), 1);
}

#[test]
fn pending_for_slot_returns_device_name() {
    let mut manager = ReconnectionManager::new();
    manager.register_disconnect(ReconnectionRequest::new(DiceSlot::new(1).unwrap(), "GoDice_xyz"));
    let name = manager.pending_for_slot(DiceSlot::new(1).unwrap());
    assert_eq!(name.as_deref(), Some("GoDice_xyz"));
}

#[test]
fn pending_for_slot_returns_none_if_not_pending() {
    let manager = ReconnectionManager::new();
    let name = manager.pending_for_slot(DiceSlot::new(0).unwrap());
    assert!(name.is_none());
}

#[test]
fn mark_reconnected_removes_pending() {
    let mut manager = ReconnectionManager::new();
    manager.register_disconnect(ReconnectionRequest::new(DiceSlot::new(3).unwrap(), "GoDice_test"));
    assert!(manager.has_pending());
    manager.mark_reconnected(DiceSlot::new(3).unwrap());
    assert!(!manager.has_pending());
}

#[test]
fn clear_removes_all_pending() {
    let mut manager = ReconnectionManager::new();
    manager.register_disconnect(ReconnectionRequest::new(DiceSlot::new(0).unwrap(), "A"));
    manager.register_disconnect(ReconnectionRequest::new(DiceSlot::new(1).unwrap(), "B"));
    assert_eq!(manager.pending_count(), 2);
    manager.clear();
    assert_eq!(manager.pending_count(), 0);
}

#[test]
fn pending_requests_returns_all() {
    let mut manager = ReconnectionManager::new();
    manager.register_disconnect(ReconnectionRequest::new(DiceSlot::new(0).unwrap(), "A"));
    manager.register_disconnect(ReconnectionRequest::new(DiceSlot::new(1).unwrap(), "B"));
    let requests = manager.pending_requests();
    assert_eq!(requests.len(), 2);
}

#[test]
fn register_same_slot_replaces_request() {
    let mut manager = ReconnectionManager::new();
    manager.register_disconnect(ReconnectionRequest::new(DiceSlot::new(4).unwrap(), "Old"));
    manager.register_disconnect(ReconnectionRequest::new(DiceSlot::new(4).unwrap(), "New"));
    assert_eq!(manager.pending_count(), 1);
    assert_eq!(manager.pending_for_slot(DiceSlot::new(4).unwrap()).as_deref(), Some("New"));
}

#[test]
fn attempt_reconnect_all_succeeds() {
    let mut manager = ReconnectionManager::new();
    manager.register_disconnect(ReconnectionRequest::new(DiceSlot::new(0).unwrap(), "A"));
    manager.register_disconnect(ReconnectionRequest::new(DiceSlot::new(1).unwrap(), "B"));
    let attempted = manager.pending_requests();
    manager.finish_reconnect_attempts(&attempted, &vec![true, true]);
    assert_eq!(manager.pending_count(), 0);
}

#[test]
fn attempt_reconnect_all_partial_failure() {
    let mut manager = ReconnectionManager::new();
    manager.register_disconnect(ReconnectionRequest::new(DiceSlot::new(0).unwrap(), "A"));
    manager.register_disconnect(ReconnectionRequest::new(DiceSlot::new(1).unwrap(), "B"));
    let attempted = manager.pending_requests();
    let succeeded: Vec<bool> = attempted.iter().map(|r| r.device_name() != "B").collect();
    manager.finish_reconnect_attempts(&attempted, &succeeded);
    assert_eq!(manager.pending_count(), 1);
    assert!(manager.pending_for_slot(DiceSlot::new(1).unwrap()).is_some());
}

// Settings store

#[test]
fn path_returns_file_path() {
    let store = SettingsStore::new("/tmp/test_settings.json");
    assert_eq!(store.path(), "/tmp/test_settings.json");
}

// Roll detector

fn face(v: u8) -> FaceValue {
    FaceValue::new(v).unwrap()
}

fn slot(i: u8) -> DiceSlot {
    DiceSlot::new(i).unwrap()
}

#[test]
fn new_starts_idle() {
    let detector = RollDetector::new();
    assert_eq!(detector.state(), RollState::Idle);
}

#[test]
fn reset_clears_state() {
    let mut detector = RollDetector::new();
    detector.reset();
    assert_eq!(detector.state(), RollState::Idle);
    assert_eq!(detector.faces(), [None; 5]);
}

#[test]
fn handle_roll_start_transitions_to_rolling() {
    let mut detector = RollDetector::new();
    let step = detector.handle_event(slot(0), &DiceEvent::RollStart);
    assert_eq!(detector.state(), RollState::Rolling);
    assert_eq!(step.event, Some(RollDetectorEvent::RollStarted));
    assert_eq!(step.start_timeout, Some(detector.roll_id()));
}

#[test]
fn handle_stable_without_roll_ignored() {
    let mut detector = RollDetector::new();
    let step = detector.handle_event(slot(0), &DiceEvent::Stable { face: face(3) });
    // Should stay idle since no roll was started
    assert_eq!(detector.state(), RollState::Idle);
    assert_eq!(step.event, None);
    assert!(!step.start_grace);
}

#[test]
fn handle_all_stable_completes_roll() {
    let mut detector = RollDetector::new();
    for s in DiceSlot::all() {
        detector.handle_event(s, &DiceEvent::RollStart);
    }
    assert_eq!(detector.state(), RollState::Rolling);
    let mut grace = false;
    for s in DiceSlot::all() {
        grace = detector.handle_event(s, &DiceEvent::Stable { face: face(6) }).start_grace;
    }
    assert!(grace);
    // Roll completes after the grace period.
    let event = detector.grace_expired();
    assert_eq!(event, Some(RollDetectorEvent::RollComplete { faces: [Some(face(6)); 5] }));
    assert_eq!(detector.state(), RollState::Idle);
    assert_eq!(detector.faces(), [None; 5]); // faces cleared after completion
}

#[test]
fn handle_partial_stable_does_not_complete() {
    let mut detector = RollDetector::new();
    for s in DiceSlot::all() {
        detector.handle_event(s, &DiceEvent::RollStart);
    }
    // Only 3 dice stable
    for i in 0..3 {
        let step = detector.handle_event(slot(i), &DiceEvent::Stable { face: face(4) });
        assert!(!step.start_grace);
    }
    assert_eq!(detector.grace_expired(), None);
    assert_eq!(detector.state(), RollState::Rolling);
}

#[test]
fn handle_disconnect_emits_event() {
    let mut detector = RollDetector::new();
    let step = detector.handle_event(slot(2), &DiceEvent::Disconnected);
    assert_eq!(step.event, Some(RollDetectorEvent::DiceDisconnected { slot: slot(2) }));
}

#[test]
fn duplicate_stable_updates_face_without_new_event() {
    let mut detector = RollDetector::new();
    detector.handle_event(slot(1), &DiceEvent::RollStart);
    let first = detector.handle_event(slot(1), &DiceEvent::MoveStable { face: face(2) });
    assert_eq!(first.event, Some(RollDetectorEvent::DiceStable { slot: slot(1), face: face(2) }));
    let second = detector.handle_event(slot(1), &DiceEvent::Stable { face: face(5) });
    assert_eq!(second.event, None);
    assert_eq!(detector.faces()[1], Some(face(5)));
}

#[test]
fn timeout_of_current_roll_times_out() {
    let mut detector = RollDetector::new();
    let step = detector.handle_event(slot(0), &DiceEvent::RollStart);
    detector.handle_event(slot(1), &DiceEvent::RollStart);
    detector.handle_event(slot(0), &DiceEvent::TiltStable { face: face(1) });
    let id = step.start_timeout.unwrap();
    let event = detector.timeout_expired(id);
    assert_eq!(event, Some(RollDetectorEvent::RollTimedOut { faces: [Some(face(1)), None, None, None, None] }));
    assert_eq!(detector.state(), RollState::TimedOut);
}

#[test]
fn stale_timeout_is_ignored() {
    let mut detector = RollDetector::new();
    let first = detector.handle_event(slot(0), &DiceEvent::RollStart);
    detector.handle_event(slot(0), &DiceEvent::Stable { face: face(6) });
    assert!(detector.grace_expired().is_some());
    detector.handle_event(slot(0), &DiceEvent::RollStart);
    assert_eq!(detector.timeout_expired(first.start_timeout.unwrap()), None);
    assert_eq!(detector.state(), RollState::Rolling);
}

#[test]
fn pending_holds_block_completion_until_marked() {
    let mut detector = RollDetector::new();
    detector.handle_event(slot(0), &DiceEvent::RollStart);
    detector.set_pending_holds(true);
    let step = detector.handle_event(slot(0), &DiceEvent::Stable { face: face(3) });
    assert!(!step.start_grace);
    let mut holds = HoldMask::none();
    holds.set_held(slot(4), true);
    let current = [None, None, None, None, Some(face(2))];
    assert!(detector.mark_held_stable(holds, current));
    assert!(!detector.pending_holds());
    assert_eq!(detector.faces(), [Some(face(3)), None, None, None, Some(face(2))]);
}

#[test]
fn reset_with_holds_keeps_held_faces() {
    let mut detector = RollDetector::new();
    let mut holds = HoldMask::none();
    holds.set_held(slot(1), true);
    let current = [Some(face(1)), Some(face(2)), Some(face(3)), Some(face(4)), Some(face(5))];
    detector.reset_with_holds(holds, current);
    assert_eq!(detector.faces(), [None, Some(face(2)), None, None, None]);
    assert_eq!(detector.state(), RollState::Idle);
}

// Event bridge

#[test]
fn new_creates_bridge() {
    let mapping = SlotMapping::new();
    let detector = RollDetector::new();
    let bridge = EventBridge::new(mapping, detector);
    assert!(!bridge.is_forwarding());
    assert!(!bridge.is_active(slot(0)));
}

#[test]
fn emit_active_player_changed_sends_event() {
    let mapping = SlotMapping::new();
    let detector = RollDetector::new();
    let bridge = EventBridge::new(mapping, detector);

    let event = bridge.emit_active_player_changed(PlayerIndex::new(0), PlayerColor::red());
    match event {
        GameEvent::ActivePlayerChanged { player_index, color } => {
            assert_eq!(player_index, PlayerIndex::new(0));
            assert_eq!(color, PlayerColor::red());
        }
        _ => panic!("expected ActivePlayerChanged event"),
    }
}

#[test]
fn emit_led_effect_sends_event() {
    let mapping = SlotMapping::new();
    let detector = RollDetector::new();
    let bridge = EventBridge::new(mapping, detector);

    let event = bridge.emit_led_effect(LedEffect::yatzy());
    match event {
        GameEvent::ApplyLedEffect { effect } => {
            assert_eq!(effect, LedEffect::yatzy());
        }
        _ => panic!("expected ApplyLedEffect event"),
    }
}

#[test]
fn parse_color_from_godice_names() {
    assert_eq!(parse_color_from_name("GoDice_320FF4_G_v04"), Some(DiceColor::Green));
    assert_eq!(parse_color_from_name("GoDice_320FF4_R_v04"), Some(DiceColor::Red));
    assert_eq!(parse_color_from_name("GoDice_320FF4_X_v04"), None);
    assert_eq!(parse_color_from_name("GoDice__v04"), None);
    assert_eq!(parse_color_from_name("B"), Some(DiceColor::Blue));
    assert_eq!(parse_color_from_name(""), None);
}

#[test]
fn start_listening_once_per_slot() {
    let mut bridge = EventBridge::new(SlotMapping::new(), RollDetector::new());
    assert!(bridge.start_listening(slot(2), "GoDice_320FF4_Y_v04"));
    assert!(!bridge.start_listening(slot(2), "GoDice_320FF4_Y_v04"));
    assert_eq!(bridge.roll_detector().slot_color(slot(2)), Some(DiceColor::Yellow));
    bridge.reset_active_slot(slot(2));
    assert!(bridge.start_listening(slot(2), "GoDice_111111_K_v04"));
    assert_eq!(bridge.roll_detector().slot_color(slot(2)), Some(DiceColor::Black));
}

#[test]
fn dice_events_become_game_events() {
    let mut bridge = EventBridge::new(SlotMapping::new(), RollDetector::new());
    assert!(bridge.start_roll_detector_forwarding());
    assert!(!bridge.start_roll_detector_forwarding());

    let (events, step) = bridge.handle_dice_event(slot(0), &DiceEvent::RollStart, "GoDice_1_R_v04");
    assert_eq!(events, vec![GameEvent::DicePickedUp { slot: slot(0) }, GameEvent::RollStarted]);
    assert!(step.start_timeout.is_some());

    let (events, step) = bridge.handle_dice_event(slot(0), &DiceEvent::Stable { face: face(4) }, "GoDice_1_R_v04");
    assert_eq!(events, vec![GameEvent::DiceStable { slot: slot(0), face: face(4) }]);
    assert!(step.start_grace);

    let completed = bridge.grace_expired();
    assert_eq!(completed, Some(GameEvent::RollComplete { faces: [Some(face(4)), None, None, None, None] }));

    let (events, _) = bridge.handle_dice_event(slot(3), &DiceEvent::Disconnected, "GoDice_1_R_v04");
    assert_eq!(events, vec![GameEvent::DiceDisconnected { slot: slot(3), name: "GoDice_1_R_v04".to_string() }]);
}

#[test]
fn stable_outside_roll_still_reported() {
    let mut bridge = EventBridge::new(SlotMapping::new(), RollDetector::new());
    let (events, step) = bridge.handle_dice_event(slot(1), &DiceEvent::FakeStable { face: face(2) }, "d");
    assert_eq!(events, vec![GameEvent::DiceStable { slot: slot(1), face: face(2) }]);
    assert_eq!(step.event, None);
    assert_eq!(bridge.roll_detector().state(), RollState::Idle);
}

#[test]
fn detector_events_are_forwarded_selectively() {
    assert_eq!(forward_detector_event(RollDetectorEvent::RollStarted), Some(GameEvent::RollStarted));
    assert_eq!(forward_detector_event(RollDetectorEvent::DiceDisconnected { slot: slot(1) }), None);
    assert_eq!(forward_detector_event(RollDetectorEvent::DiceStable { slot: slot(1), face: face(3) }), None);
}

#[test]
fn pending_requests_in_slot_order() {
    let mut manager = ReconnectionManager::new();
    manager.register_disconnect(ReconnectionRequest::new(DiceSlot::new(3).unwrap(), "D"));
    manager.register_disconnect(ReconnectionRequest::new(DiceSlot::new(1).unwrap(), "B"));
    let requests = manager.pending_requests();
    assert_eq!(requests.len(), 2);
    assert_eq!(requests[0].slot(), DiceSlot::new(1).unwrap());
    assert_eq!(requests[1].slot(), DiceSlot::new(3).unwrap());
    for r in &requests {
        assert_eq!(manager.pending_for_slot(r.slot()).as_deref(), Some(r.device_name()));
    }
}

#[test]
fn led_apply_outcome_needs_one_die() {
    assert!(LedService::apply_outcome(&vec![false, true, false]).is_ok());
    assert!(LedService::apply_outcome(&vec![false, false]).is_err());
    assert!(LedService::apply_outcome(&Vec::new()).is_err());
}

#[test]
fn detector_clone_keeps_state() {
    let mut detector = RollDetector::new();
    detector.handle_event(slot(3), &DiceEvent::RollStart);
    let copy = detector.clone();
    assert_eq!(copy.state(), RollState::Rolling);
    assert_eq!(copy.roll_id(), detector.roll_id());
}
