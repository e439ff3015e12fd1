use crate::models::game_mode::GameMode;
use crate::models::player_color::PlayerColor;
use crate::models::player_color::default_colors;
use crate::models::player_name::PlayerName;
use crate::models::player_type::PlayerType;
use vstd::prelude::*;

verus! {

/// A single player's persisted settings.
///
/// Stored as part of `GameSettings` when the game configuration is saved.
/// Contains the player's name, color, and type (human or computer).
#[derive(Debug, Clone, PartialEq, Eq)]
pub struct PlayerSettingsEntry {
    /// The player's display name.
    name: PlayerName,
    /// The player's color for LED and UI identification.
    color: PlayerColor,
    /// Whether this player is human or the computer opponent.
    player_type: PlayerType,
}

impl PlayerSettingsEntry {
    /// The stored name.
    pub closed spec fn name_of(&self) -> Seq<char> {
        self.name@
    }

    /// The stored color.
    pub closed spec fn color_of(&self) -> PlayerColor {
        self.color
    }

    /// The stored type.
    pub closed spec fn type_of(&self) -> PlayerType {
        self.player_type
    }

    /// Create a new player settings entry.
    pub fn new(name: PlayerName, color: PlayerColor, player_type: PlayerType) -> (e: PlayerSettingsEntry)
        ensures
            e.name_of() == name@,
            e.color_of() == color,
            e.type_of() == player_type,
    {
        Self { name, color, player_type }
    }

    /// Get the player's name.
    pub fn name(&self) -> (n: &PlayerName)
        ensures
            n@ == self.name_of(),
    {
        &self.name
    }

    /// Get the player's color.
    pub fn color(&self) -> (c: PlayerColor)
        ensures
            c == self.color_of(),
    {
        self.color
    }

    /// Get the player's type.
    pub fn player_type(&self) -> (t: PlayerType)
        ensures
            t == self.type_of(),
    {
        self.player_type
    }
}

/// Persisted game settings containing the full player configuration.
///
/// This struct is stored on disk so that the player setup is restored
/// between game sessions.
#[derive(Debug, Clone, PartialEq, Eq)]
pub struct GameSettings {
    /// The game mode (single-player or multi-player).
    game_mode: GameMode,
    /// The list of player configurations.
    players: Vec<PlayerSettingsEntry>,
}

impl GameSettings {
    /// The stored mode.
    pub closed spec fn mode_of(&self) -> GameMode {
        self.game_mode
    }

    /// The stored player entries.
    pub closed spec fn players_of(&self) -> Seq<PlayerSettingsEntry> {
        self.players@
    }

    /// Create a new game settings with the given mode and players.
    pub fn new(game_mode: GameMode, players: Vec<PlayerSettingsEntry>) -> (s: GameSettings)
        ensures
            s.mode_of() == game_mode,
            s.players_of() == players@,
    {
        Self { game_mode, players }
    }

    /// Get the game mode.
    pub fn game_mode(&self) -> (m: GameMode)
        ensures
            m == self.mode_of(),
    {
        self.game_mode
    }

    /// Get the player settings entries.
    pub fn players(&self) -> (p: &[PlayerSettingsEntry])
        ensures
            p@ == self.players_of(),
    {
        self.players.as_slice()
    }

    /// Get the number of players.
    pub fn player_count(&self) -> (n: usize)
        ensures
            n == self.players_of().len(),
    {
        self.players.len()
    }

    /// Create default settings for a single-player game: one human player
    /// named "Spieler 1" in red.
    pub fn default_single_player() -> (s: GameSettings)
        ensures
            s.mode_of() == GameMode::SinglePlayer,
            s.players_of().len() == 1,
            s.players_of()[0].name_of() == "Spieler 1"@,
            s.players_of()[0].color_of()@ == default_colors()[0],
            s.players_of()[0].type_of() == PlayerType::Human,
    {
        proof {
            reveal_strlit("Spieler 1");
        }
        let name = match PlayerName::new("Spieler 1") {
            Ok(n) => n,
            Err(_) => vstd::pervasive::unreached(),
        };
        let mut players: Vec<PlayerSettingsEntry> = Vec::new();
        players.push(PlayerSettingsEntry::new(name, PlayerColor::red(), PlayerType::Human));
        Self { game_mode: GameMode::SinglePlayer, players }
    }
}

impl Default for GameSettings {
    fn default() -> (s: Self)
        ensures
            s.mode_of() == GameMode::SinglePlayer,
            s.players_of().len() == 1,
            s.players_of()[0].name_of() == "Spieler 1"@,
            s.players_of()[0].color_of()@ == default_colors()[0],
            s.players_of()[0].type_of() == PlayerType::Human,
    {
        Self::default_single_player()
    }
}

} // verus!
