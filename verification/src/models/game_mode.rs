use vstd::prelude::*;

verus! {

/// The game mode determining player interaction style.
///
/// In `SinglePlayer` mode, strategy hints are shown to help the player
/// learn optimal play. In `MultiPlayer` mode, hints are disabled to
/// ensure fair play between human players.
#[derive(Debug, Clone, Copy, PartialEq, Eq, Hash, Structural)]
pub enum GameMode {
    /// Single-player mode with AI opponent and strategy hints enabled.
    SinglePlayer,
    /// Multi-player pass-and-play mode with hints disabled for fairness.
    MultiPlayer,
}

impl GameMode {
    /// Fluent message key of the mode.
    pub open spec fn key_of(self) -> Seq<char> {
        match self {
            GameMode::SinglePlayer => "game-mode-single-player"@,
            GameMode::MultiPlayer => "game-mode-multi-player"@,
        }
    }

    /// Display text of the mode.
    pub open spec fn text_of(self) -> Seq<char> {
        match self {
            GameMode::SinglePlayer => "Single Player"@,
            GameMode::MultiPlayer => "Multi Player"@,
        }
    }

    /// Returns true if strategy hints should be shown in this mode.
    pub fn hints_enabled(self) -> (b: bool)
        ensures
            b <==> self == GameMode::SinglePlayer,
    {
        match self {
            Self::SinglePlayer => true,
            Self::MultiPlayer => false,
        }
    }

    /// Returns true if this is a pass-and-play mode requiring turn transitions.
    pub fn requires_turn_transitions(self) -> (b: bool)
        ensures
            b <==> self == GameMode::MultiPlayer,
    {
        match self {
            Self::SinglePlayer => false,
            Self::MultiPlayer => true,
        }
    }

    /// Fluent message key used to look up the localized text.
    pub fn fluent_key(&self) -> (key: &'static str)
        ensures
            key@ == self.key_of(),
    {
        proof {
            reveal_strlit("game-mode-single-player");
            reveal_strlit("game-mode-multi-player");
        }
        match self {
            Self::SinglePlayer => "game-mode-single-player",
            Self::MultiPlayer => "game-mode-multi-player",
        }
    }

    /// The display text of the mode.
    pub fn localized(&self) -> (text: String)
        ensures
            text@ == self.text_of(),
    {
        match self {
            Self::SinglePlayer => String::from_str("Single Player"),
            Self::MultiPlayer => String::from_str("Multi Player"),
        }
    }

    /// The display text of the mode (same as `localized`).
    pub fn to_string(&self) -> (text: String)
        ensures
            text@ == self.text_of(),
    {
        self.localized()
    }
}

/// Hints and turn transitions are exclusive: exactly one of them is on
/// in every mode.
pub proof fn lemma_hints_xor_transitions(mode: GameMode)
    ensures
        (mode == GameMode::SinglePlayer) != (mode == GameMode::MultiPlayer),
{
}

} // verus!
