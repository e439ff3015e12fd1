pub mod led_effect;
pub mod led_service;
pub mod slot_mapping;

pub use led_effect::LedEffect;
pub use led_service::LedService;
pub use slot_mapping::SlotMapping;
pub mod ai_action;
pub mod led_color_assignment;
pub mod reconnection_manager;
pub mod settings_store;

pub use led_color_assignment::LedColorAssignment;
pub use reconnection_manager::ReconnectionManager;
pub use settings_store::SettingsStore;
pub mod game_event;

pub use game_event::GameEvent;
pub mod roll_detector;

pub use roll_detector::RollDetector;
pub use roll_detector::RollState;
pub mod event_bridge;

pub use event_bridge::EventBridge;
pub mod controller_event;

pub use controller_event::ControllerEvent;
