pub mod category;
pub mod category_section;
pub mod dice_set;
pub mod dice_slot;
pub mod face_value;
pub mod hold_mask;
pub mod roll_count;
pub mod round_number;
pub mod score;
pub mod score_entry;
pub mod scorecard;
pub mod game_mode;
pub mod game_status;
pub mod player_index;
pub mod player_type;
pub mod roll_result;
pub mod dice_color;
pub mod led_color;
pub mod player_color;
pub mod game_settings;
pub mod highscore_entry;
pub mod player;
pub mod player_name;
pub mod reconnection_request;
pub mod turn_action;
pub mod turn_transition;
pub mod dice_event;
pub mod standing;
pub mod turn_phase;
