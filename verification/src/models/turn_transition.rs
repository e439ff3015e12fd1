use crate::models::player::Player;
use crate::models::player_color::PlayerColor;
use crate::models::player_index::PlayerIndex;
use crate::models::round_number::RoundNumber;
use vstd::prelude::*;

verus! {

/// Data for a pass-and-play turn transition screen.
///
/// When the active player changes in multi-player mode, this struct
/// carries the information needed to display the transition overlay:
/// which player is next, their color for LED indication, and the
/// current round number.
#[derive(Debug, Clone, PartialEq, Eq)]
pub struct TurnTransition {
    /// The index of the next player.
    player_index: PlayerIndex,
    /// The next player's display name.
    player_name: String,
    /// The next player's color for LED and UI indication.
    player_color: PlayerColor,
    /// The current round number.
    round: RoundNumber,
}

impl TurnTransition {
    /// The index of the next player.
    pub closed spec fn index_of(&self) -> PlayerIndex {
        self.player_index
    }

    /// The next player's name.
    pub closed spec fn name_of(&self) -> Seq<char> {
        self.player_name@
    }

    /// The next player's color.
    pub closed spec fn color_of(&self) -> PlayerColor {
        self.player_color
    }

    /// The round.
    pub closed spec fn round_of(&self) -> RoundNumber {
        self.round
    }

    /// Create a new turn transition from the next player and round.
    pub fn new(player: &Player, player_index: PlayerIndex, round: RoundNumber) -> (t: TurnTransition)
        ensures
            t.index_of() == player_index,
            t.name_of() == player.name_of(),
            t.color_of() == player.color_of(),
            t.round_of() == round,
    {
        TurnTransition {
            player_index,
            player_name: String::from_str(player.name().as_str()),
            player_color: player.color(),
            round,
        }
    }

    /// Get the next player's index.
    pub fn player_index(&self) -> (i: PlayerIndex)
        ensures
            i == self.index_of(),
    {
        self.player_index
    }

    /// Get the next player's name.
    pub fn player_name(&self) -> (s: &str)
        ensures
            s@ == self.name_of(),
    {
        self.player_name.as_str()
    }

    /// Get the next player's color.
    pub fn player_color(&self) -> (c: PlayerColor)
        ensures
            c == self.color_of(),
    {
        self.player_color
    }

    /// Get the current round number.
    pub fn round(&self) -> (r: RoundNumber)
        ensures
            r == self.round_of(),
    {
        self.round
    }
}

} // verus!
