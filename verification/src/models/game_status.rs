use vstd::prelude::*;

verus! {

/// The overall status of a Yatzy game.
///
/// This is distinct from the turn phase (which tracks the micro-state
/// within a single player's turn). `GameStatus` tracks the macro-level
/// game lifecycle: setup, active play, or game over.
#[derive(Debug, Clone, Copy, PartialEq, Eq, Hash, Structural)]
pub enum GameStatus {
    /// Game is being set up (players joining, dice connecting).
    Setup,
    /// Game is actively in progress.
    Playing,
    /// Game has ended — all rounds completed, winners determined.
    GameOver,
}

impl GameStatus {
    /// Fluent message key of the status.
    pub open spec fn key_of(self) -> Seq<char> {
        match self {
            GameStatus::Setup => "game-status-setup"@,
            GameStatus::Playing => "game-status-playing"@,
            GameStatus::GameOver => "game-status-game-over"@,
        }
    }

    /// Display text of the status.
    pub open spec fn text_of(self) -> Seq<char> {
        match self {
            GameStatus::Setup => "Setup"@,
            GameStatus::Playing => "Playing"@,
            GameStatus::GameOver => "Game Over"@,
        }
    }

    /// Fluent message key used to look up the localized text.
    pub fn fluent_key(&self) -> (key: &'static str)
        ensures
            key@ == self.key_of(),
    {
        proof {
            reveal_strlit("game-status-setup");
            reveal_strlit("game-status-playing");
            reveal_strlit("game-status-game-over");
        }
        match self {
            Self::Setup => "game-status-setup",
            Self::Playing => "game-status-playing",
            Self::GameOver => "game-status-game-over",
        }
    }

    /// The display text of the status.
    pub fn localized(&self) -> (text: String)
        ensures
            text@ == self.text_of(),
    {
        match self {
            Self::Setup => String::from_str("Setup"),
            Self::Playing => String::from_str("Playing"),
            Self::GameOver => String::from_str("Game Over"),
        }
    }

    /// The display text of the status (same as `localized`).
    pub fn to_string(&self) -> (text: String)
        ensures
            text@ == self.text_of(),
    {
        self.localized()
    }
}

} // verus!
