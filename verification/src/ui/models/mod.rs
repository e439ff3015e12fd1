pub mod decimal;
pub mod roll_button_label;
pub mod ui_message;
