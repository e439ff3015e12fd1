use crate::error::Result;
use crate::error::YatzyError;
use crate::models::dice_slot::DiceSlot;
use crate::models::led_color::LedColor;
use crate::services::led_effect::LedEffect;
use crate::services::slot_mapping::SlotMapping;
use vstd::prelude::*;

verus! {

/// What one die is told to do with its LEDs.
#[derive(Debug, Clone, Copy, PartialEq, Eq, Structural)]
pub enum LedAction {
    /// Show a solid color.
    SetColor(LedColor),
    /// Pulse once in a color.
    PulseOnce {
        /// Number of pulses.
        pulse_count: u8,
        /// Time the LEDs are on per pulse.
        on_time: u8,
        /// The color.
        color: LedColor,
    },
    /// Pulse through the rainbow.
    PulseRainbow {
        /// Number of pulses.
        pulse_count: u8,
        /// Time the LEDs are on per pulse.
        on_time: u8,
        /// Time the LEDs are off per pulse.
        off_time: u8,
        /// The base color.
        color: LedColor,
    },
}

/// An LED command for the die in one slot.
#[derive(Debug, Clone, Copy, PartialEq, Eq)]
pub struct LedCommand {
    /// The die to address.
    pub slot: DiceSlot,
    /// What it should do.
    pub action: LedAction,
}

/// What the effect asks of the die in slot `s`, if anything.
pub open spec fn action_for(effect: LedEffect, s: int) -> Option<LedAction> {
    let off = LedColor { r: 0, g: 0, b: 0 };
    match effect {
        LedEffect::SolidAll { color } => Some(LedAction::SetColor(color@)),
        LedEffect::Solid { slot, color } => if slot@ == s {
            Some(LedAction::SetColor(color@))
        } else {
            None
        },
        LedEffect::OffAll => Some(LedAction::SetColor(off)),
        LedEffect::Off { slot } => if slot@ == s {
            Some(LedAction::SetColor(off))
        } else {
            None
        },
        LedEffect::HoldVisualization { holds } => Some(
            LedAction::SetColor(
                if holds@[s] {
                    LedColor { r: 0, g: 255, b: 0 }
                } else {
                    off
                },
            ),
        ),
        LedEffect::HoldVisualizationWithColor { holds, held_color } => Some(
            LedAction::SetColor(
                if holds@[s] {
                    held_color@
                } else {
                    off
                },
            ),
        ),
        LedEffect::Celebrate { pulse_count: _, color } => Some(
            LedAction::PulseOnce { pulse_count: 50, on_time: 50, color: color@ },
        ),
        LedEffect::Pulse { slot, pulse_count, color } => if slot@ == s {
            Some(LedAction::PulseOnce { pulse_count, on_time: 50, color: color@ })
        } else {
            None
        },
        LedEffect::Rainbow { pulse_count } => Some(
            LedAction::PulseRainbow {
                pulse_count,
                on_time: 50,
                off_time: 50,
                color: LedColor { r: 255, g: 255, b: 255 },
            },
        ),
    }
}

/// The commands for slots `0..i`: one per slot that has a die assigned
/// and that the effect addresses, in slot order.
pub open spec fn planned_upto(effect: LedEffect, names: Seq<Option<Seq<char>>>, i: int) -> Seq<
    (u8, LedAction),
>
    decreases i,
{
    if i <= 0 {
        Seq::empty()
    } else {
        let prev = planned_upto(effect, names, i - 1);
        match action_for(effect, i - 1) {
            Some(a) => if names[i - 1] is Some {
                prev.push(((i - 1) as u8, a))
            } else {
                prev
            },
            None => prev,
        }
    }
}

/// Service for controlling GoDice LED effects.
///
/// Translates logical `LedEffect`s into per-die LED commands. Uses
/// `SlotMapping` to find which slots have a die to address; dice not
/// assigned are skipped.
#[derive(Debug, Clone)]
pub struct LedService {
    /// Mapping from game slots to physical dice.
    mapping: SlotMapping,
}

impl LedService {
    /// The slot mapping the service addresses.
    pub closed spec fn mapping_of(&self) -> SlotMapping {
        self.mapping
    }

    /// Create a new LED service with the given slot mapping.
    pub fn new(mapping: SlotMapping) -> (s: LedService)
        ensures
            s.mapping_of() == mapping,
    {
        Self { mapping }
    }

    /// The slot mapping used to address the dice.
    pub fn mapping(&self) -> (m: &SlotMapping)
        ensures
            *m == self.mapping_of(),
    {
        &self.mapping
    }

    /// What the effect asks of the die in `slot`.
    fn action(effect: &LedEffect, slot: DiceSlot) -> (a: Option<LedAction>)
        ensures
            a == action_for(*effect, slot@ as int),
    {
        let off = LedColor::off();
        match effect {
            LedEffect::SolidAll { color } => Some(LedAction::SetColor(color.led_color())),
            LedEffect::Solid { slot: s, color } => if s.get() == slot.get() {
                Some(LedAction::SetColor(color.led_color()))
            } else {
                None
            },
            LedEffect::OffAll => Some(LedAction::SetColor(off)),
            LedEffect::Off { slot: s } => if s.get() == slot.get() {
                Some(LedAction::SetColor(off))
            } else {
                None
            },
            LedEffect::HoldVisualization { holds } => Some(
                LedAction::SetColor(
                    if holds.is_held(slot) {
                        LedColor::green()
                    } else {
                        off
                    },
                ),
            ),
            LedEffect::HoldVisualizationWithColor { holds, held_color } => Some(
                LedAction::SetColor(
                    if holds.is_held(slot) {
                        held_color.led_color()
                    } else {
                        off
                    },
                ),
            ),
            LedEffect::Celebrate { pulse_count: _, color } => Some(
                LedAction::PulseOnce { pulse_count: 50, on_time: 50, color: color.led_color() },
            ),
            LedEffect::Pulse { slot: s, pulse_count, color } => if s.get() == slot.get() {
                Some(
                    LedAction::PulseOnce {
                        pulse_count: *pulse_count,
                        on_time: 50,
                        color: color.led_color(),
                    },
                )
            } else {
                None
            },
            LedEffect::Rainbow { pulse_count } => Some(
                LedAction::PulseRainbow {
                    pulse_count: *pulse_count,
                    on_time: 50,
                    off_time: 50,
                    color: LedColor::white(),
                },
            ),
        }
    }

    /// The result of applying an effect, from whether each of its commands
    /// reached its die: `Ok` if the effect was applied to at least one die.
    /// Failures of single dice are not fatal.
    pub fn apply_outcome(delivered: &Vec<bool>) -> (r: Result<()>)
        ensures
            r is Ok <==> exists|i: int| 0 <= i < delivered@.len() && #[trigger] delivered@[i],
            r matches Err(e) ==> (e matches YatzyError::Ble(msg) && msg@ == "the LED effect reached no die"@),
    {
        let mut i: usize = 0;
        while i < delivered.len()
            invariant
                i <= delivered@.len(),
                forall|j: int| 0 <= j < i ==> !#[trigger] delivered@[j],
            decreases delivered.len() - i,
        {
            if delivered[i] {
                return Ok(());
            }
            i += 1;
        }
        Err(YatzyError::Ble(String::from_str("the LED effect reached no die")))
    }

    /// The LED commands that apply an effect to the assigned dice.
    ///
    /// Whole-set effects address every assigned die; single-die effects
    /// address their die if it is assigned. Celebrations pulse each die
    /// once (50, 50), rainbows pulse (count, 50, 50) in white, and hold
    /// visualizations light held dice (green by default) and turn the
    /// others off. Commands come in slot order.
    pub fn commands(&self, effect: &LedEffect) -> (cmds: Vec<LedCommand>)
        ensures
            cmds@.len() == planned_upto(*effect, self.mapping_of().names_of(), 5).len(),
            forall|i: int|
                0 <= i < cmds@.len() ==> (#[trigger] cmds@[i]).slot@ == planned_upto(
                    *effect,
                    self.mapping_of().names_of(),
                    5,
                )[i].0 && cmds@[i].action == planned_upto(*effect, self.mapping_of().names_of(), 5)[i].1,
    {
        let slots = DiceSlot::all();
        let mut cmds: Vec<LedCommand> = Vec::new();
        let mut i: usize = 0;
        while i < 5
            invariant
                i <= 5,
                slots@.len() == 5,
                forall|j: int| 0 <= j < 5 ==> (#[trigger] slots@[j])@ == j,
                cmds@.len() == planned_upto(*effect, self.mapping.names_of(), i as int).len(),
                forall|j: int|
                    0 <= j < cmds@.len() ==> (#[trigger] cmds@[j]).slot@ == planned_upto(
                        *effect,
                        self.mapping.names_of(),
                        i as int,
                    )[j].0 && cmds@[j].action == planned_upto(*effect, self.mapping.names_of(), i as int)[j].1,
            decreases 5 - i,
        {
            let slot = slots[i];
            if self.mapping.is_assigned(slot) {
                if let Some(action) = Self::action(effect, slot) {
                    cmds.push(LedCommand { slot, action });
                }
            }
            i += 1;
        }
        cmds
    }
}

} // verus!

verus! {

/// The LED commands of an effect address only slots that have a die, each
/// slot at most once and in increasing order, and each with the action
/// the effect asks of that slot.
pub proof fn lemma_planned_only_assigned(effect: LedEffect, names: Seq<Option<Seq<char>>>, i: int)
    requires
        0 <= i <= 5,
    ensures
        forall|k: int|
            0 <= k < planned_upto(effect, names, i).len() ==> {
                let (s, a) = #[trigger] planned_upto(effect, names, i)[k];
                &&& s < i
                &&& names[s as int] is Some
                &&& action_for(effect, s as int) == Some(a)
            },
        forall|k: int, l: int|
            0 <= k < l < planned_upto(effect, names, i).len() ==> #[trigger] planned_upto(effect, names, i)[k].0
                < #[trigger] planned_upto(effect, names, i)[l].0,
    decreases i,
{
    if i > 0 {
        lemma_planned_only_assigned(effect, names, i - 1);
    }
}

} // verus!
