use crate::models::dice_slot::DiceSlot;
use crate::models::hold_mask::HoldMask;
use crate::models::player_color::PlayerColor;
use vstd::prelude::*;

verus! {

/// A logical LED effect on the dice, independent of how it is sent.
#[derive(Debug, Clone, Copy, PartialEq, Eq)]
pub enum LedEffect {
    /// All dice glow in one color.
    SolidAll {
        /// The color.
        color: PlayerColor,
    },
    /// One die glows in a color.
    Solid {
        /// The die.
        slot: DiceSlot,
        /// The color.
        color: PlayerColor,
    },
    /// All dice off.
    OffAll,
    /// One die off.
    Off {
        /// The die.
        slot: DiceSlot,
    },
    /// Held dice glow green, the others are off.
    HoldVisualization {
        /// Which dice are held.
        holds: HoldMask,
    },
    /// Held dice glow in a color, the others are off.
    HoldVisualizationWithColor {
        /// Which dice are held.
        holds: HoldMask,
        /// The color of the held dice.
        held_color: PlayerColor,
    },
    /// All dice pulse in a color.
    Celebrate {
        /// Number of pulses.
        pulse_count: u8,
        /// The color.
        color: PlayerColor,
    },
    /// One die pulses in a color.
    Pulse {
        /// The die.
        slot: DiceSlot,
        /// Number of pulses.
        pulse_count: u8,
        /// The color.
        color: PlayerColor,
    },
    /// All dice pulse through the rainbow.
    Rainbow {
        /// Number of pulses.
        pulse_count: u8,
    },
}

impl LedEffect {
    /// The effect that marks the active player: all dice in the player's color.
    pub fn active_player(color: PlayerColor) -> (e: LedEffect)
        ensures
            e == (LedEffect::SolidAll { color }),
    {
        LedEffect::SolidAll { color }
    }

    /// The celebration for a Yatzy: all dice pulse through the rainbow.
    pub fn yatzy() -> (e: LedEffect)
        ensures
            e == (LedEffect::Rainbow { pulse_count: 3 }),
    {
        LedEffect::Rainbow { pulse_count: 3 }
    }

    /// The effect that turns all dice off.
    pub fn all_off() -> (e: LedEffect)
        ensures
            e == LedEffect::OffAll,
    {
        LedEffect::OffAll
    }
}

} // verus!
