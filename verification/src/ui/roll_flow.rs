use crate::error::Result;
use crate::error::YatzyError;
use crate::models::category::ScoreCategory;
use crate::models::dice_slot::DiceSlot;
use crate::models::score::Score;
use crate::models::turn_action::TurnAction;
use crate::models::face_value::FaceValue;
use crate::models::hold_mask::HoldMask;
use crate::models::hold_mask::count_true;
use crate::models::turn_phase::TurnPhase;
use vstd::prelude::*;

verus! {

/// The face shown for a die after a roll: the face it reported, else the
/// face it showed before the roll, else 1.
pub open spec fn merged_face(reported: Option<FaceValue>, current: Option<FaceValue>) -> u8 {
    match reported {
        Some(f) => f@,
        None => match current {
            Some(f) => f@,
            None => 1,
        },
    }
}

/// Complete the faces of a finished (or timed-out) roll.
///
/// Dice that did not report (hardware or firmware issues) keep the face
/// they showed before the roll; dice without any known face show 1. Every
/// slot of the result holds a face.
pub fn merge_roll_faces(reported: &[Option<FaceValue>; 5], current: &[Option<FaceValue>; 5]) -> (merged: [Option<
    FaceValue,
>; 5])
    ensures
        forall|i: int|
            0 <= i < 5 ==> ((#[trigger] merged@[i]) matches Some(f) && f@ == merged_face(reported@[i], current@[i])),
{
    let one = match FaceValue::new(1) {
        Ok(f) => f,
        Err(_) => vstd::pervasive::unreached(),
    };
    let mut merged: [Option<FaceValue>; 5] = [None; 5];
    let mut i: usize = 0;
    while i < 5
        invariant
            i <= 5,
            one@ == 1,
            forall|j: int|
                0 <= j < i ==> ((#[trigger] merged@[j]) matches Some(f) && f@ == merged_face(
                    reported@[j],
                    current@[j],
                )),
        decreases 5 - i,
    {
        let face = match reported[i] {
            Some(f) => f,
            None => match current[i] {
                Some(f) => f,
                None => one,
            },
        };
        merged[i] = Some(face);
        i += 1;
    }
    merged
}

/// What to do when a roll has started.
#[derive(Debug, Clone, Copy, PartialEq, Eq)]
pub struct RollStartedReaction {
    /// Execute the roll action: the first roll of a turn was started by
    /// picking the dice up, and nobody has asked for it yet.
    pub execute_roll: bool,
    /// Tell the roll detector to wait for held dice: a pickup during the
    /// holding phase started the roll before the auto-hold fired.
    pub set_pending_holds: bool,
    /// Show the dice as rolling.
    pub show_rolling: bool,
}

/// React to a started roll in turn phase `phase` (`None` when no game is
/// running) with the hold mask `holds`.
///
/// The roll action is executed when the turn awaits its first roll. During
/// the holding phase the detector waits for held dice, and while no die is
/// held yet (the auto-hold has not fired) nothing is shown as rolling.
pub fn react_to_roll_started(phase: Option<TurnPhase>, holds: HoldMask) -> (r: RollStartedReaction)
    ensures
        r.execute_roll == (phase == Some(TurnPhase::AwaitingRoll)),
        r.set_pending_holds == (phase == Some(TurnPhase::Holding)),
        r.show_rolling == !(phase == Some(TurnPhase::Holding) && count_true(holds@) == 0),
{
    let awaiting = match phase {
        Some(TurnPhase::AwaitingRoll) => true,
        _ => false,
    };
    let holding = match phase {
        Some(TurnPhase::Holding) => true,
        _ => false,
    };
    RollStartedReaction {
        execute_roll: awaiting,
        set_pending_holds: holding,
        show_rolling: !(holding && holds.held_count() == 0),
    }
}

/// What to do when the pickup collection window closes, in order.
#[derive(Debug, Clone, Copy, PartialEq, Eq)]
pub enum PickupAction {
    /// Set the hold mask of the turn.
    Hold(HoldMask),
    /// Tell the roll detector that the held dice are stable.
    MarkHeldStable(HoldMask),
    /// Roll the dice that are not held.
    Roll,
}

/// The dice picked up during the holding phase, each once, in the order
/// they were picked up.
///
/// When the collection window closes, every die that was not picked up
/// is held and the picked-up dice are rolled.
#[derive(Debug)]
pub struct PickedUpDice {
    slots: Vec<DiceSlot>,
}

impl View for PickedUpDice {
    type V = Seq<DiceSlot>;

    /// The picked-up dice, in pickup order.
    closed spec fn view(&self) -> Seq<DiceSlot> {
        self.slots@
    }
}

impl PickedUpDice {
    /// No die is listed twice.
    #[verifier::type_invariant]
    spec fn no_duplicates(&self) -> bool {
        self.slots@.no_duplicates()
    }

    /// Nothing picked up.
    pub fn new() -> (p: PickedUpDice)
        ensures
            p@ == Seq::<DiceSlot>::empty(),
    {
        PickedUpDice { slots: Vec::new() }
    }

    /// Whether the die in `slot` was picked up.
    pub fn contains(&self, slot: DiceSlot) -> (b: bool)
        ensures
            b == self@.contains(slot),
    {
        let mut i: usize = 0;
        while i < self.slots.len()
            invariant
                i <= self.slots@.len(),
                forall|j: int| 0 <= j < i ==> self.slots@[j] != slot,
            decreases self.slots.len() - i,
        {
            if self.slots[i] == slot {
                return true;
            }
            i += 1;
        }
        false
    }

    /// Note that the die in `slot` was picked up; a die already noted is
    /// not listed again.
    pub fn note_pickup(&mut self, slot: DiceSlot)
        ensures
            old(self)@.contains(slot) ==> final(self)@ == old(self)@,
            !old(self)@.contains(slot) ==> final(self)@ == old(self)@.push(slot),
    {
        proof {
            use_type_invariant(&*self);
        }
        if !self.contains(slot) {
            let mut slots = Vec::new();
            std::mem::swap(&mut slots, &mut self.slots);
            slots.push(slot);
            self.slots = slots;
        }
    }

    /// Forget all picked-up dice.
    pub fn clear(&mut self)
        ensures
            final(self)@ == Seq::<DiceSlot>::empty(),
    {
        self.slots = Vec::new();
    }

    /// A die was picked up while the turn is in `phase` (`None` when no
    /// game is running). Only during the holding phase is the pickup
    /// noted; it then returns true and the caller (re)starts the one-second
    /// collection window. Other pickups are ignored.
    pub fn on_pickup(&mut self, phase: Option<TurnPhase>, slot: DiceSlot) -> (restart: bool)
        ensures
            restart == (phase == Some(TurnPhase::Holding)),
            !restart ==> final(self)@ == old(self)@,
            restart && old(self)@.contains(slot) ==> final(self)@ == old(self)@,
            restart && !old(self)@.contains(slot) ==> final(self)@ == old(self)@.push(slot),
    {
        match phase {
            Some(TurnPhase::Holding) => {
                self.note_pickup(slot);
                true
            },
            _ => false,
        }
    }

    /// The collection window closed: hold every die that was not picked
    /// up, mark those held dice as stable, then roll; the picked-up dice
    /// are forgotten.
    pub fn window_closed(&mut self) -> (actions: Vec<PickupAction>)
        ensures
            actions@.len() == 3,
            actions@[0] matches PickupAction::Hold(mask) && actions@[1] == PickupAction::MarkHeldStable(mask)
                && forall|s: DiceSlot| s@ < 5 ==> (mask@[s@ as int] <==> !#[trigger] old(self)@.contains(s)),
            actions@[2] == PickupAction::Roll,
            final(self)@ == Seq::<DiceSlot>::empty(),
    {
        let mask = self.auto_hold_mask();
        let mut actions: Vec<PickupAction> = Vec::new();
        actions.push(PickupAction::Hold(mask));
        actions.push(PickupAction::MarkHeldStable(mask));
        actions.push(PickupAction::Roll);
        self.clear();
        actions
    }

    /// Hold every die that was not picked up and release the others.
    pub fn auto_hold_mask(&self) -> (holds: HoldMask)
        ensures
            forall|s: DiceSlot| s@ < 5 ==> (holds@[s@ as int] <==> !#[trigger] self@.contains(s)),
    {
        let slots = DiceSlot::all();
        let mut flags = [false; 5];
        let mut i: usize = 0;
        while i < 5
            invariant
                i <= 5,
                slots@.len() == 5,
                forall|j: int| 0 <= j < 5 ==> (#[trigger] slots@[j])@ == j,
                forall|j: int| 0 <= j < i ==> #[trigger] flags@[j] == !self@.contains(slots@[j]),
            decreases 5 - i,
        {
            flags[i] = !self.contains(slots[i]);
            i += 1;
        }
        let holds = HoldMask::from_flags(flags);
        assert forall|s: DiceSlot| s@ < 5 implies (holds@[s@ as int] <==> !#[trigger] self@.contains(s)) by {
            DiceSlot::lemma_view_injective(s, slots@[s@ as int]);
        }
        holds
    }
}

/// Whether every die has been verified by a stable report, so that the
/// game can be started.
pub fn all_slots_verified(verified: &[bool; 5]) -> (b: bool)
    ensures
        b == (forall|i: int| 0 <= i < 5 ==> #[trigger] verified@[i]),
{
    let mut i: usize = 0;
    while i < 5
        invariant
            i <= 5,
            forall|j: int| 0 <= j < i ==> #[trigger] verified@[j],
        decreases 5 - i,
    {
        if !verified[i] {
            return false;
        }
        i += 1;
    }
    true
}

} // verus!

verus! {

/// The action for a category selected on the scorecard: enter the score
/// the dice make in it. When the potential score cannot be had, its error
/// is reported and nothing is done.
pub fn selection_action(category: ScoreCategory, potential: Result<Score>) -> (r: Result<TurnAction>)
    ensures
        match potential {
            Ok(score) => r == Ok::<TurnAction, YatzyError>(TurnAction::EnterScore { category, score }),
            Err(e) => r == Err::<TurnAction, YatzyError>(e),
        },
{
    match potential {
        Ok(score) => Ok(TurnAction::EnterScore { category, score }),
        Err(e) => Err(e),
    }
}

/// After entering a selected category: when the entry was refused, cross
/// the category out instead; otherwise nothing more.
pub fn fallback_after_entry(category: ScoreCategory, entry_refused: bool) -> (r: Option<TurnAction>)
    ensures
        entry_refused ==> r == Some(TurnAction::CrossOut { category }),
        !entry_refused ==> r is None,
{
    if entry_refused {
        Some(TurnAction::CrossOut { category })
    } else {
        None
    }
}

} // verus!

verus! {

/// Which dice have proven responsive by a stable report since they were
/// assigned to their slot.
///
/// A die that is assigned becomes unverified and the caller starts a
/// ten-second timer; a stable report verifies it. When the timer fires
/// for a die still unverified, the die is swapped.
#[derive(Debug, Clone, Copy, PartialEq, Eq)]
pub struct SlotVerification {
    verified: [bool; 5],
}

impl View for SlotVerification {
    type V = Seq<bool>;

    /// Whether each slot is verified.
    closed spec fn view(&self) -> Seq<bool> {
        self.verified@
    }
}

impl SlotVerification {
    /// No slot verified yet.
    pub fn new() -> (v: SlotVerification)
        ensures
            v@ == seq![false, false, false, false, false],
    {
        let v = SlotVerification { verified: [false; 5] };
        assert(v@ =~= seq![false, false, false, false, false]);
        v
    }

    /// A die was assigned to `slot`: it is unverified until it reports.
    pub fn on_dice_assigned(&mut self, slot: DiceSlot)
        ensures
            final(self)@ == old(self)@.update(slot@ as int, false),
    {
        let i = slot.get() as usize;
        self.verified[i] = false;
        assert(self.verified@ =~= old(self).verified@.update(i as int, false));
    }

    /// The die in `slot` reported a stable face: it is verified. Returns
    /// whether the start button should now be enabled: on the setup
    /// screen, once every slot is verified.
    pub fn on_dice_stable(&mut self, slot: DiceSlot, in_setup: bool) -> (enable_start: bool)
        ensures
            final(self)@ == old(self)@.update(slot@ as int, true),
            enable_start == (in_setup && forall|i: int| 0 <= i < 5 ==> #[trigger] final(self)@[i]),
    {
        let i = slot.get() as usize;
        self.verified[i] = true;
        assert(self.verified@ =~= old(self).verified@.update(i as int, true));
        in_setup && all_slots_verified(&self.verified)
    }

    /// The ten-second timer of `slot` fired: swap the die if it has not
    /// reported since it was assigned.
    pub fn swap_due(&self, slot: DiceSlot) -> (swap: bool)
        ensures
            swap == !self@[slot@ as int],
    {
        !self.verified[slot.get() as usize]
    }

    /// Whether every slot is verified (the start button of a new game is
    /// enabled exactly then).
    pub fn all_verified(&self) -> (b: bool)
        ensures
            b == (forall|i: int| 0 <= i < 5 ==> #[trigger] self@[i]),
    {
        let b = all_slots_verified(&self.verified);
        assert(self@ == self.verified@);
        b
    }
}

} // verus!
