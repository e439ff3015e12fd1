pub mod models;
pub mod hints;
pub mod player_setup;
pub mod roll_flow;
pub mod scorecard_cells;

pub use models::roll_button_label::RollButtonLabel;
pub use models::ui_message::UiMessage;
