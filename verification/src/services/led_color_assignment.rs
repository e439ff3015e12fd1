use crate::models::player::Player;
use crate::models::player_color::PlayerColor;
use crate::models::player_index::PlayerIndex;
use crate::services::led_effect::LedEffect;
use vstd::prelude::*;

verus! {

/// Manages the assignment of LED colors to players.
///
/// This service is responsible for translating player colors into
/// LED effects that can be applied to the physical dice. It provides
/// methods for the active player indicator and turn transition effects.
pub struct LedColorAssignment {
    /// The color assignments for each player, indexed by player index.
    assignments: Vec<PlayerColor>,
}

/// No two positions hold the same color.
pub open spec fn all_distinct(colors: Seq<PlayerColor>) -> bool {
    forall|i: int, j: int| 0 <= i < j < colors.len() ==> colors[i] != colors[j]
}

impl LedColorAssignment {
    /// The colors, indexed by player index.
    pub closed spec fn colors_of(&self) -> Seq<PlayerColor> {
        self.assignments@
    }

    /// Create a new color assignment from a list of players.
    ///
    /// Each player's color is extracted and stored for quick lookup.
    pub fn new(players: &[Player]) -> (a: LedColorAssignment)
        ensures
            a.colors_of().len() == players@.len(),
            forall|i: int| 0 <= i < players@.len() ==> a.colors_of()[i] == (#[trigger] players@[i]).color_of(),
    {
        let mut assignments: Vec<PlayerColor> = Vec::new();
        let n = players.len();
        let mut i: usize = 0;
        while i < n
            invariant
                n == players@.len(),
                i <= n,
                assignments@.len() == i,
                forall|j: int| 0 <= j < i ==> assignments@[j] == (#[trigger] players@[j]).color_of(),
            decreases n - i,
        {
            assignments.push(players[i].color());
            i += 1;
        }
        Self { assignments }
    }

    /// Get the color assigned to a player by index.
    ///
    /// Returns `None` if the index is out of range.
    pub fn color_for(&self, index: PlayerIndex) -> (c: Option<PlayerColor>)
        ensures
            index@ < self.colors_of().len() ==> c == Some(self.colors_of()[index@ as int]),
            index@ >= self.colors_of().len() ==> c is None,
    {
        let i = index.get();
        if i < self.assignments.len() {
            Some(self.assignments[i])
        } else {
            None
        }
    }

    /// Create the LED effect for the active player indicator.
    ///
    /// All dice glow in the active player's color.
    pub fn active_player_effect(&self, index: PlayerIndex) -> (e: Option<LedEffect>)
        ensures
            index@ < self.colors_of().len() ==> e == Some(
                LedEffect::SolidAll { color: self.colors_of()[index@ as int] },
            ),
            index@ >= self.colors_of().len() ==> e is None,
    {
        match self.color_for(index) {
            Some(color) => Some(LedEffect::active_player(color)),
            None => None,
        }
    }

    /// Create the LED effect for a turn transition.
    ///
    /// In multi-player mode, this pulses the dice in the new player's
    /// color to signal the handoff.
    pub fn turn_transition_effect(&self, index: PlayerIndex) -> (e: Option<LedEffect>)
        ensures
            index@ < self.colors_of().len() ==> e == Some(
                LedEffect::Celebrate { pulse_count: 2, color: self.colors_of()[index@ as int] },
            ),
            index@ >= self.colors_of().len() ==> e is None,
    {
        match self.color_for(index) {
            Some(color) => Some(LedEffect::Celebrate { pulse_count: 2, color }),
            None => None,
        }
    }

    /// Create the LED effect to turn all dice off.
    pub fn all_off_effect() -> (e: LedEffect)
        ensures
            e == LedEffect::OffAll,
    {
        LedEffect::all_off()
    }

    /// Returns the number of assigned players.
    pub fn player_count(&self) -> (n: usize)
        ensures
            n == self.colors_of().len(),
    {
        self.assignments.len()
    }

    /// Returns true if all players have distinct colors.
    pub fn has_distinct_colors(&self) -> (b: bool)
        ensures
            b <==> all_distinct(self.colors_of()),
    {
        let n = self.assignments.len();
        let mut i: usize = 0;
        while i < n
            invariant
                n == self.assignments@.len(),
                i <= n,
                forall|a: int, b: int| 0 <= a < i && a < b < n ==> self.assignments@[a] != self.assignments@[b],
            decreases n - i,
        {
            let mut j: usize = i + 1;
            while j < n
                invariant
                    n == self.assignments@.len(),
                    i < n,
                    i + 1 <= j <= n,
                    forall|a: int, b: int| 0 <= a < i && a < b < n ==> self.assignments@[a] != self.assignments@[b],
                    forall|b: int| i < b < j ==> self.assignments@[i as int] != self.assignments@[b],
                decreases n - j,
            {
                if self.assignments[i] == self.assignments[j] {
                    return false;
                }
                j += 1;
            }
            i += 1;
        }
        true
    }
}

} // verus!
