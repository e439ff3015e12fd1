use crate::models::player_color::PlayerColor;
use crate::models::player_name::PlayerName;
use crate::models::player_type::PlayerType;
use crate::models::score::Score;
use crate::models::scorecard::Scorecard;
use crate::models::scorecard::grand_total_of;
use vstd::prelude::*;

verus! {

/// A participant in a Yatzy game.
///
/// Each player has a name, a color for LED/UI identification, a type
/// (human or computer), and a scorecard tracking their progress through
/// the 13 categories.
#[derive(Debug, Clone, PartialEq, Eq)]
pub struct Player {
    /// The player's display name.
    name: PlayerName,
    /// The player's color for LED indication and UI display.
    color: PlayerColor,
    /// Whether this player is human or the computer opponent.
    player_type: PlayerType,
    /// The player's scorecard.
    scorecard: Scorecard,
}

impl Player {
    /// The player's name.
    pub closed spec fn name_of(&self) -> Seq<char> {
        self.name@
    }

    /// The player's color.
    pub closed spec fn color_of(&self) -> PlayerColor {
        self.color
    }

    /// The player's type.
    pub closed spec fn type_of(&self) -> PlayerType {
        self.player_type
    }

    /// The player's scorecard.
    pub closed spec fn scorecard_of(&self) -> Scorecard {
        self.scorecard
    }

    /// Create a new player with an empty scorecard.
    pub fn new(name: PlayerName, color: PlayerColor, player_type: PlayerType) -> (p: Player)
        ensures
            p.name_of() == name@,
            p.color_of() == color,
            p.type_of() == player_type,
            forall|i: int| 0 <= i < 13 ==> #[trigger] p.scorecard_of().entries_of()[i] is Empty,
            p.scorecard_of().bonus_of() == 0,
    {
        Player { name, color, player_type, scorecard: Scorecard::new() }
    }

    /// Get the player's name.
    pub fn name(&self) -> (n: &PlayerName)
        ensures
            n@ == self.name_of(),
    {
        &self.name
    }

    /// Get the player's color.
    pub fn color(&self) -> (c: PlayerColor)
        ensures
            c == self.color_of(),
    {
        self.color
    }

    /// Get the player's type.
    pub fn player_type(&self) -> (t: PlayerType)
        ensures
            t == self.type_of(),
    {
        self.player_type
    }

    /// Get the player's scorecard.
    pub fn scorecard(&self) -> (sc: &Scorecard)
        ensures
            *sc == self.scorecard_of(),
    {
        &self.scorecard
    }

    /// Get a mutable reference to the player's scorecard.
    pub fn scorecard_mut(&mut self) -> (sc: &mut Scorecard)
        ensures
            *sc == old(self).scorecard_of(),
            final(self).scorecard_of() == *final(sc),
            final(self).name_of() == old(self).name_of(),
            final(self).color_of() == old(self).color_of(),
            final(self).type_of() == old(self).type_of(),
    {
        &mut self.scorecard
    }

    /// Get the player's grand total score.
    pub fn grand_total(&self) -> (s: Score)
        requires
            grand_total_of(self.scorecard_of().entries_of(), self.scorecard_of().bonus_of())
                <= u32::MAX,
        ensures
            s@ == grand_total_of(self.scorecard_of().entries_of(), self.scorecard_of().bonus_of()),
    {
        self.scorecard.grand_total()
    }

    /// Returns true if this player is the computer opponent.
    pub fn is_computer(&self) -> (b: bool)
        ensures
            b <==> self.type_of() == PlayerType::Computer,
    {
        self.player_type == PlayerType::Computer
    }
}

} // verus!
