use crate::models::dice_color::DiceColor;
use crate::models::dice_event::DiceEvent;
use crate::models::dice_event::stable_face;
use crate::models::dice_slot::DiceSlot;
use crate::models::face_value::FaceValue;
use crate::models::hold_mask::HoldMask;
use vstd::prelude::*;

verus! {

/// The state of the roll detection for the dice set.
#[derive(Debug, Clone, Copy, PartialEq, Eq, Structural)]
pub enum RollState {
    /// No roll in progress. All dice are stable.
    Idle,
    /// A roll has started (at least one dice reported RollStart).
    Rolling,
    /// All dice have reported stable face values.
    Complete,
    /// The roll timed out before all dice became stable.
    TimedOut,
}

/// Event emitted by the roll detector.
#[derive(Debug, Clone, Copy, PartialEq, Eq)]
pub enum RollDetectorEvent {
    /// A roll has started on one or more dice.
    RollStarted,
    /// All dice are now stable. Contains the face values for each slot.
    RollComplete {
        /// Face values indexed by slot (0-4). `None` if a dice didn't report.
        faces: [Option<FaceValue>; 5],
    },
    /// The roll timed out. Some dice may not have reported stable values.
    RollTimedOut {
        /// Partial face values received before timeout.
        faces: [Option<FaceValue>; 5],
    },
    /// A single dice became stable.
    DiceStable {
        /// The slot that became stable.
        slot: DiceSlot,
        /// The face value reported.
        face: FaceValue,
    },
    /// A dice disconnected during a roll.
    DiceDisconnected {
        /// The slot that disconnected.
        slot: DiceSlot,
    },
}

/// What the runtime must do after the detector handled a dice event.
#[derive(Debug, Clone, Copy, PartialEq, Eq)]
pub struct RollStep {
    /// The event to emit, if any.
    pub event: Option<RollDetectorEvent>,
    /// Start the completion timeout for this roll id, if set.
    pub start_timeout: Option<u64>,
    /// Start the grace period after which the roll completes.
    pub start_grace: bool,
}

/// Every die that reported a roll start has reported stable.
pub open spec fn all_rolling_stable(rolling: Seq<bool>, stable: Seq<bool>) -> bool {
    forall|i: int| 0 <= i < 5 ==> (#[trigger] rolling[i] ==> stable[i])
}

/// The next roll id (wrapping after the largest id).
pub open spec fn next_id(id: u64) -> u64 {
    if id == u64::MAX {
        0
    } else {
        (id + 1) as u64
    }
}

/// Five unset flags.
pub open spec fn no_flags() -> Seq<bool> {
    seq![false, false, false, false, false]
}

/// Five missing faces.
pub open spec fn no_faces() -> Seq<Option<FaceValue>> {
    seq![None, None, None, None, None]
}

/// What handling `event` from `slot` does: `old` is the detector before,
/// `new` after, and `step` what the runtime is told to do.
///
/// - A roll start marks the die as rolling, not stable and without a face.
///   If the detector was idle a roll starts: it becomes `Rolling` with the
///   next roll id, `RollStarted` is emitted and the completion timeout of
///   that id is started. Otherwise nothing is emitted.
/// - A stable-type event is ignored outside a roll. During a roll it records
///   the face; if the die was not stable yet it becomes stable, `DiceStable`
///   is emitted, and the grace period starts when no held dice are pending
///   and every rolling die is now stable.
/// - A disconnect emits `DiceDisconnected`; other events do nothing.
pub open spec fn handled(
    old: RollDetector,
    slot: DiceSlot,
    event: DiceEvent,
    new: RollDetector,
    step: RollStep,
) -> bool {
    let i = slot@ as int;
    let keeps_flags = new.pending_of() == old.pending_of() && new.colors_of() == old.colors_of();
    if event is RollStart {
        &&& new.rolling_of() == old.rolling_of().update(i, true)
        &&& new.stable_of() == old.stable_of().update(i, false)
        &&& new.faces_of() == old.faces_of().update(i, None)
        &&& keeps_flags
        &&& !step.start_grace
        &&& if old.state_of() == RollState::Idle {
            &&& new.state_of() == RollState::Rolling
            &&& new.roll_id_of() == next_id(old.roll_id_of())
            &&& step.event == Some(RollDetectorEvent::RollStarted)
            &&& step.start_timeout == Some(new.roll_id_of())
        } else {
            &&& new.state_of() == old.state_of()
            &&& new.roll_id_of() == old.roll_id_of()
            &&& step.event is None
            &&& step.start_timeout is None
        }
    } else if let Some(face) = stable_face(event) {
        &&& step.start_timeout is None
        &&& if old.state_of() != RollState::Rolling {
            new == old && step.event is None && !step.start_grace
        } else {
            &&& new.rolling_of() == old.rolling_of()
            &&& new.state_of() == old.state_of()
            &&& new.roll_id_of() == old.roll_id_of()
            &&& keeps_flags
            &&& new.faces_of() == old.faces_of().update(i, Some(face))
            &&& if old.stable_of()[i] {
                new.stable_of() == old.stable_of() && step.event is None && !step.start_grace
            } else {
                &&& new.stable_of() == old.stable_of().update(i, true)
                &&& step.event == Some(RollDetectorEvent::DiceStable { slot, face })
                &&& step.start_grace == (!old.pending_of() && all_rolling_stable(
                    old.rolling_of(),
                    new.stable_of(),
                ))
            }
        }
    } else if event is Disconnected {
        new == old && step == RollStep {
            event: Some(RollDetectorEvent::DiceDisconnected { slot }),
            start_timeout: None,
            start_grace: false,
        }
    } else {
        new == old && step == RollStep { event: None, start_timeout: None, start_grace: false }
    }
}

/// Detects roll completion across all 5 dice.
///
/// Fed with the events of each physical die, it determines when a roll is
/// complete (all dice that started rolling are stable) or has timed out.
/// Timers are run by the caller: the detector says when to start the
/// completion timeout and the grace period, and is told when they expire.
#[derive(Debug, Clone, Copy)]
pub struct RollDetector {
    /// Current face values per slot (None if not yet reported for this roll).
    faces: [Option<FaceValue>; 5],
    /// Whether each slot has reported RollStart for the current roll.
    rolling: [bool; 5],
    /// Whether each slot has reported Stable for the current roll.
    stable: [bool; 5],
    /// The state of the current roll.
    state: RollState,
    /// Increasing roll id, used to ignore stale timeouts.
    roll_id: u64,
    /// Whether the roll is waiting for held dice to be marked stable.
    ///
    /// Set when a roll starts during the holding phase (physical pickup).
    /// The roll cannot complete until `mark_held_stable` clears this flag.
    pending_holds: bool,
    /// Physical dice color per slot, for diagnostic logging.
    slot_colors: [Option<DiceColor>; 5],
}

impl RollDetector {
    /// Face values per slot.
    pub closed spec fn faces_of(&self) -> Seq<Option<FaceValue>> {
        self.faces@
    }

    /// RollStart flags per slot.
    pub closed spec fn rolling_of(&self) -> Seq<bool> {
        self.rolling@
    }

    /// Stable flags per slot.
    pub closed spec fn stable_of(&self) -> Seq<bool> {
        self.stable@
    }

    /// The roll state.
    pub closed spec fn state_of(&self) -> RollState {
        self.state
    }

    /// The current roll id.
    pub closed spec fn roll_id_of(&self) -> u64 {
        self.roll_id
    }

    /// Whether completion waits for held dice.
    pub closed spec fn pending_of(&self) -> bool {
        self.pending_holds
    }

    /// Physical colors per slot.
    pub closed spec fn colors_of(&self) -> Seq<Option<DiceColor>> {
        self.slot_colors@
    }

    /// The model has one entry per slot.
    pub proof fn lemma_len(&self)
        ensures
            self.faces_of().len() == 5,
            self.rolling_of().len() == 5,
            self.stable_of().len() == 5,
            self.colors_of().len() == 5,
    {
    }

    /// The roll has ended and its data is cleared: no faces, no rolling
    /// and no stable dice; the roll id, pending flag and colors stay.
    pub open spec fn cleared(old: RollDetector, new: RollDetector) -> bool {
        &&& new.faces_of() == no_faces()
        &&& new.rolling_of() == no_flags()
        &&& new.stable_of() == no_flags()
        &&& new.pending_of() == old.pending_of()
        &&& new.colors_of() == old.colors_of()
    }

    /// What the expiry of the grace period does: a roll still in progress
    /// whose rolling dice are all stable completes, emitting `RollComplete`
    /// with the collected faces, and the detector becomes idle with the
    /// next roll id. Otherwise nothing happens.
    pub open spec fn grace_post(old: RollDetector, new: RollDetector, event: Option<RollDetectorEvent>) -> bool {
        if old.state_of() == RollState::Rolling && all_rolling_stable(old.rolling_of(), old.stable_of()) {
            &&& event matches Some(RollDetectorEvent::RollComplete { faces }) && faces@ == old.faces_of()
            &&& Self::cleared(old, new)
            &&& new.state_of() == RollState::Idle
            &&& new.roll_id_of() == next_id(old.roll_id_of())
        } else {
            event is None && new == old
        }
    }

    /// What the expiry of the completion timeout of roll `expected` does:
    /// if that roll is still in progress it times out, emitting
    /// `RollTimedOut` with the faces received so far, and the detector is
    /// left in `TimedOut` with the same roll id. Otherwise nothing happens.
    pub open spec fn timeout_post(
        old: RollDetector,
        expected: u64,
        new: RollDetector,
        event: Option<RollDetectorEvent>,
    ) -> bool {
        if old.state_of() == RollState::Rolling && old.roll_id_of() == expected {
            &&& event matches Some(RollDetectorEvent::RollTimedOut { faces }) && faces@ == old.faces_of()
            &&& Self::cleared(old, new)
            &&& new.state_of() == RollState::TimedOut
            &&& new.roll_id_of() == old.roll_id_of()
        } else {
            event is None && new == old
        }
    }

    /// Create a new, idle roll detector.
    pub fn new() -> (d: RollDetector)
        ensures
            d.faces_of() == no_faces(),
            d.rolling_of() == no_flags(),
            d.stable_of() == no_flags(),
            d.state_of() == RollState::Idle,
            d.roll_id_of() == 0,
            !d.pending_of(),
            d.colors_of() == seq![None::<DiceColor>, None, None, None, None],
    {
        let d = Self {
            faces: [None, None, None, None, None],
            rolling: [false; 5],
            stable: [false; 5],
            state: RollState::Idle,
            roll_id: 0,
            pending_holds: false,
            slot_colors: [None, None, None, None, None],
        };
        assert(d.faces@ =~= no_faces());
        assert(d.rolling@ =~= no_flags());
        assert(d.slot_colors@ =~= seq![None::<DiceColor>, None, None, None, None]);
        d
    }

    /// Get the current roll state.
    pub fn state(&self) -> (s: RollState)
        ensures
            s == self.state_of(),
    {
        self.state
    }

    /// Get the current roll id.
    pub fn roll_id(&self) -> (id: u64)
        ensures
            id == self.roll_id_of(),
    {
        self.roll_id
    }

    /// Whether completion waits for held dice to be marked stable.
    pub fn pending_holds(&self) -> (b: bool)
        ensures
            b == self.pending_of(),
    {
        self.pending_holds
    }

    /// Set whether the roll is waiting for held dice to be marked stable.
    ///
    /// Call `set_pending_holds(true)` when a roll starts from a physical
    /// pickup during Holding phase. The roll will not complete until
    /// `mark_held_stable` clears the flag.
    pub fn set_pending_holds(&mut self, pending: bool)
        ensures
            final(self).pending_of() == pending,
            final(self).faces_of() == old(self).faces_of(),
            final(self).rolling_of() == old(self).rolling_of(),
            final(self).stable_of() == old(self).stable_of(),
            final(self).state_of() == old(self).state_of(),
            final(self).roll_id_of() == old(self).roll_id_of(),
            final(self).colors_of() == old(self).colors_of(),
    {
        self.pending_holds = pending;
    }

    /// Set the physical dice color for a slot, used in diagnostic logs.
    pub fn set_slot_color(&mut self, slot: DiceSlot, color: DiceColor)
        ensures
            final(self).colors_of() == old(self).colors_of().update(slot@ as int, Some(color)),
            final(self).faces_of() == old(self).faces_of(),
            final(self).rolling_of() == old(self).rolling_of(),
            final(self).stable_of() == old(self).stable_of(),
            final(self).state_of() == old(self).state_of(),
            final(self).roll_id_of() == old(self).roll_id_of(),
            final(self).pending_of() == old(self).pending_of(),
    {
        let i = slot.get() as usize;
        self.slot_colors[i] = Some(color);
        assert(self.slot_colors@ =~= old(self).slot_colors@.update(i as int, Some(color)));
    }

    /// The physical color registered for a slot, if any.
    pub fn slot_color(&self, slot: DiceSlot) -> (c: Option<DiceColor>)
        ensures
            c == self.colors_of()[slot@ as int],
    {
        self.slot_colors[slot.get() as usize]
    }

    /// Get the current face values (if any) for each slot.
    pub fn faces(&self) -> (faces: [Option<FaceValue>; 5])
        ensures
            faces@ == self.faces_of(),
    {
        self.faces
    }

    /// Reset the detector for a new roll.
    pub fn reset(&mut self)
        ensures
            final(self).faces_of() == no_faces(),
            final(self).rolling_of() == no_flags(),
            final(self).stable_of() == no_flags(),
            final(self).state_of() == RollState::Idle,
            final(self).roll_id_of() == next_id(old(self).roll_id_of()),
            !final(self).pending_of(),
            final(self).colors_of() == old(self).colors_of(),
    {
        self.faces = [None, None, None, None, None];
        self.rolling = [false; 5];
        self.stable = [false; 5];
        self.state = RollState::Idle;
        self.roll_id = self.roll_id.wrapping_add(1);
        self.pending_holds = false;
        assert(self.faces@ =~= no_faces());
        assert(self.rolling@ =~= no_flags());
        assert(self.stable@ =~= no_flags());
    }

    /// Reset the detector for a new roll, preserving held dice.
    ///
    /// Held slots keep their current face and are marked as already
    /// stable, so the detector only waits for non-held dice to report.
    pub fn reset_with_holds(&mut self, holds: HoldMask, current_faces: [Option<FaceValue>; 5])
        ensures
            final(self).faces_of() == Seq::new(
                5,
                |i: int|
                    if holds@[i] {
                        current_faces@[i]
                    } else {
                        None
                    },
            ),
            final(self).rolling_of() == no_flags(),
            final(self).stable_of() == Seq::new(5, |i: int| holds@[i]),
            final(self).state_of() == RollState::Idle,
            final(self).roll_id_of() == next_id(old(self).roll_id_of()),
            final(self).pending_of() == old(self).pending_of(),
            final(self).colors_of() == old(self).colors_of(),
    {
        let slots = DiceSlot::all();
        let mut i: usize = 0;
        while i < 5
            invariant
                i <= 5,
                slots@.len() == 5,
                forall|j: int| 0 <= j < 5 ==> (#[trigger] slots@[j])@ == j,
                forall|j: int|
                    0 <= j < i ==> self.faces@[j] == if holds@[j] {
                        current_faces@[j]
                    } else {
                        None
                    },
                forall|j: int| 0 <= j < i ==> self.stable@[j] == holds@[j],
                self.rolling == old(self).rolling,
                self.state == old(self).state,
                self.roll_id == old(self).roll_id,
                self.pending_holds == old(self).pending_holds,
                self.slot_colors == old(self).slot_colors,
            decreases 5 - i,
        {
            let held = holds.is_held(slots[i]);
            if held {
                self.faces[i] = current_faces[i];
            } else {
                self.faces[i] = None;
            }
            self.stable[i] = held;
            i += 1;
        }
        self.rolling = [false; 5];
        self.state = RollState::Idle;
        self.roll_id = self.roll_id.wrapping_add(1);
        assert(self.rolling@ =~= no_flags());
        assert(self.faces@ =~= Seq::new(
            5,
            |i: int|
                if holds@[i] {
                    current_faces@[i]
                } else {
                    None
                },
        ));
        assert(self.stable@ =~= Seq::new(5, |i: int| holds@[i]));
    }

    /// Whether every die that started rolling is stable.
    fn rolling_dice_stable(&self) -> (b: bool)
        ensures
            b == all_rolling_stable(self.rolling_of(), self.stable_of()),
    {
        let mut i: usize = 0;
        while i < 5
            invariant
                i <= 5,
                forall|j: int| 0 <= j < i ==> (#[trigger] self.rolling@[j] ==> self.stable@[j]),
            decreases 5 - i,
        {
            if self.rolling[i] && !self.stable[i] {
                return false;
            }
            i += 1;
        }
        true
    }

    /// Handle a RollStart from a slot. Returns the new roll id if this
    /// started a roll.
    fn handle_roll_start(&mut self, slot: DiceSlot) -> (started: Option<u64>)
        ensures
            final(self).rolling_of() == old(self).rolling_of().update(slot@ as int, true),
            final(self).stable_of() == old(self).stable_of().update(slot@ as int, false),
            final(self).faces_of() == old(self).faces_of().update(slot@ as int, None),
            old(self).state_of() == RollState::Idle ==> final(self).state_of() == RollState::Rolling
                && final(self).roll_id_of() == next_id(old(self).roll_id_of()) && started == Some(
                final(self).roll_id_of(),
            ),
            old(self).state_of() != RollState::Idle ==> final(self).state_of() == old(self).state_of()
                && final(self).roll_id_of() == old(self).roll_id_of() && started is None,
            final(self).pending_of() == old(self).pending_of(),
            final(self).colors_of() == old(self).colors_of(),
    {
        let i = slot.get() as usize;
        self.rolling[i] = true;
        self.stable[i] = false;
        self.faces[i] = None;
        assert(self.rolling@ =~= old(self).rolling@.update(i as int, true));
        assert(self.stable@ =~= old(self).stable@.update(i as int, false));
        assert(self.faces@ =~= old(self).faces@.update(i as int, None));
        if self.state == RollState::Idle {
            self.state = RollState::Rolling;
            self.roll_id = self.roll_id.wrapping_add(1);
            Some(self.roll_id)
        } else {
            None
        }
    }

    /// Handle a stable-type event from a slot. Returns whether a
    /// `DiceStable` event is emitted and whether the grace period starts.
    fn handle_stable(&mut self, slot: DiceSlot, face: FaceValue) -> (r: (bool, bool))
        ensures
            old(self).state_of() != RollState::Rolling ==> *final(self) == *old(self) && r == (false, false),
            old(self).state_of() == RollState::Rolling && old(self).stable_of()[slot@ as int] ==> final(self).faces_of() == old(self).faces_of().update(slot@ as int, Some(face)) && final(self).stable_of() == old(self).stable_of() && r == (false, false),
            old(self).state_of() == RollState::Rolling && !old(self).stable_of()[slot@ as int] ==> final(self).faces_of() == old(self).faces_of().update(slot@ as int, Some(face)) && final(self).stable_of() == old(self).stable_of().update(slot@ as int, true) && r.0 && r.1 == (!old(self).pending_of() && all_rolling_stable(old(self).rolling_of(), final(self).stable_of())),
            final(self).rolling_of() == old(self).rolling_of(),
            final(self).state_of() == old(self).state_of(),
            final(self).roll_id_of() == old(self).roll_id_of(),
            final(self).pending_of() == old(self).pending_of(),
            final(self).colors_of() == old(self).colors_of(),
    {
        if self.state != RollState::Rolling {
            return (false, false);
        }
        let i = slot.get() as usize;
        if self.stable[i] {
            self.faces[i] = Some(face);
            assert(self.faces@ =~= old(self).faces@.update(i as int, Some(face)));
            return (false, false);
        }
        self.stable[i] = true;
        self.faces[i] = Some(face);
        assert(self.faces@ =~= old(self).faces@.update(i as int, Some(face)));
        assert(self.stable@ =~= old(self).stable@.update(i as int, true));
        if self.pending_holds {
            (true, false)
        } else {
            (true, self.rolling_dice_stable())
        }
    }

    /// Handle a `DiceEvent` from a specific slot.
    ///
    /// A roll start marks the die as rolling and, if the detector was idle,
    /// starts a roll: `RollStarted` is emitted and the completion timeout is
    /// started for the new roll id. A stable-type event during a roll
    /// records the face; the first one of a die emits `DiceStable` and, if
    /// every rolling die is now stable and no held dice are pending, starts
    /// the grace period. Stable events outside a roll are ignored. A
    /// disconnect emits `DiceDisconnected`. Other events are ignored.
    pub fn handle_event(&mut self, slot: DiceSlot, event: &DiceEvent) -> (step: RollStep)
        ensures
            handled(*old(self), slot, *event, *final(self), step),
    {
        match event {
            DiceEvent::RollStart => {
                match self.handle_roll_start(slot) {
                    Some(id) => RollStep {
                        event: Some(RollDetectorEvent::RollStarted),
                        start_timeout: Some(id),
                        start_grace: false,
                    },
                    None => RollStep { event: None, start_timeout: None, start_grace: false },
                }
            },
            DiceEvent::Disconnected => RollStep {
                event: Some(RollDetectorEvent::DiceDisconnected { slot }),
                start_timeout: None,
                start_grace: false,
            },
            DiceEvent::Other => RollStep { event: None, start_timeout: None, start_grace: false },
            _ => {
                let face = match event.stable_face() {
                    Some(f) => f,
                    None => vstd::pervasive::unreached(),
                };
                let (emit, grace) = self.handle_stable(slot, face);
                RollStep {
                    event: if emit {
                        Some(RollDetectorEvent::DiceStable { slot, face })
                    } else {
                        None
                    },
                    start_timeout: None,
                    start_grace: grace,
                }
            },
        }
    }

    /// Clear the roll after completion or timeout: returns the faces
    /// collected and leaves no faces, no rolling and no stable dice.
    fn take_faces(&mut self) -> (faces: [Option<FaceValue>; 5])
        ensures
            faces@ == old(self).faces_of(),
            final(self).faces_of() == no_faces(),
            final(self).rolling_of() == no_flags(),
            final(self).stable_of() == no_flags(),
            final(self).state_of() == old(self).state_of(),
            final(self).roll_id_of() == old(self).roll_id_of(),
            final(self).pending_of() == old(self).pending_of(),
            final(self).colors_of() == old(self).colors_of(),
    {
        let faces = self.faces;
        self.faces = [None, None, None, None, None];
        self.rolling = [false; 5];
        self.stable = [false; 5];
        assert(self.faces@ =~= no_faces());
        assert(self.rolling@ =~= no_flags());
        assert(self.stable@ =~= no_flags());
        faces
    }

    /// The grace period after all rolling dice became stable has expired.
    ///
    /// If the roll is still in progress and every die that started rolling
    /// is stable, the roll completes: `RollComplete` with the collected
    /// faces is returned and the detector becomes idle with a new roll id.
    /// Otherwise (a new roll start arrived meanwhile, or the roll already
    /// ended) nothing happens.
    pub fn grace_expired(&mut self) -> (event: Option<RollDetectorEvent>)
        ensures
            Self::grace_post(*old(self), *final(self), event),
    {
        if self.state != RollState::Rolling || !self.rolling_dice_stable() {
            return None;
        }
        let faces = self.take_faces();
        self.state = RollState::Idle;
        self.roll_id = self.roll_id.wrapping_add(1);
        Some(RollDetectorEvent::RollComplete { faces })
    }

    /// The completion timeout of roll `expected_roll_id` has expired.
    ///
    /// If that roll is still in progress, it times out: `RollTimedOut` with
    /// the faces received so far is returned and the detector is left in
    /// `TimedOut`. A timeout of an earlier roll, or of a roll that already
    /// ended, is ignored.
    pub fn timeout_expired(&mut self, expected_roll_id: u64) -> (event: Option<RollDetectorEvent>)
        ensures
            Self::timeout_post(*old(self), expected_roll_id, *final(self), event),
    {
        if self.state != RollState::Rolling || self.roll_id != expected_roll_id {
            return None;
        }
        let faces = self.take_faces();
        self.state = RollState::TimedOut;
        Some(RollDetectorEvent::RollTimedOut { faces })
    }

    /// Mark held dice as already stable with their current face values.
    ///
    /// Used after auto-hold-on-pickup while a roll is in progress: held
    /// dice that have not reported stable yet take their current face and
    /// count as stable, and the pending-holds flag is cleared. Held dice
    /// that already reported stable keep the face they reported. Returns
    /// whether every rolling die is now stable, in which case the grace
    /// period should start. Outside a roll nothing happens.
    pub fn mark_held_stable(&mut self, holds: HoldMask, current_faces: [Option<FaceValue>; 5]) -> (start_grace: bool)
        ensures
            old(self).state_of() != RollState::Rolling ==> !start_grace && *final(self) == *old(self),
            old(self).state_of() == RollState::Rolling ==> final(self).stable_of() == Seq::new(
                5,
                |i: int| old(self).stable_of()[i] || holds@[i],
            ) && final(self).faces_of() == Seq::new(
                5,
                |i: int|
                    if holds@[i] && !old(self).stable_of()[i] {
                        current_faces@[i]
                    } else {
                        old(self).faces_of()[i]
                    },
            ) && !final(self).pending_of() && start_grace == all_rolling_stable(
                old(self).rolling_of(),
                final(self).stable_of(),
            ) && final(self).rolling_of() == old(self).rolling_of() && final(self).state_of() == old(self).state_of() && final(self).roll_id_of() == old(self).roll_id_of() && final(self).colors_of()
                == old(self).colors_of(),
    {
        if self.state != RollState::Rolling {
            return false;
        }
        self.pending_holds = false;
        let slots = DiceSlot::all();
        let mut i: usize = 0;
        while i < 5
            invariant
                i <= 5,
                slots@.len() == 5,
                forall|j: int| 0 <= j < 5 ==> (#[trigger] slots@[j])@ == j,
                forall|j: int| 0 <= j < i ==> #[trigger] self.stable@[j] == (old(self).stable@[j] || holds@[j]),
                forall|j: int|
                    0 <= j < i ==> #[trigger] self.faces@[j] == if holds@[j] && !old(self).stable@[j] {
                        current_faces@[j]
                    } else {
                        old(self).faces@[j]
                    },
                forall|j: int| i <= j < 5 ==> self.stable@[j] == old(self).stable@[j],
                forall|j: int| i <= j < 5 ==> self.faces@[j] == old(self).faces@[j],
                self.rolling == old(self).rolling,
                self.state == old(self).state,
                self.roll_id == old(self).roll_id,
                !self.pending_holds,
                self.slot_colors == old(self).slot_colors,
            decreases 5 - i,
        {
            let held = holds.is_held(slots[i]);
            if held && !self.stable[i] {
                self.stable[i] = true;
                self.faces[i] = current_faces[i];
            }
            i += 1;
        }
        assert(self.stable@ =~= Seq::new(5, |i: int| old(self).stable@[i] || holds@[i]));
        assert(self.faces@ =~= Seq::new(
            5,
            |i: int|
                if holds@[i] && !old(self).stable@[i] {
                    current_faces@[i]
                } else {
                    old(self).faces@[i]
                },
        ));
        self.rolling_dice_stable()
    }
}

impl Default for RollDetector {
    fn default() -> (d: Self)
        ensures
            d.state_of() == RollState::Idle,
            d.faces_of() == no_faces(),
    {
        Self::new()
    }
}

} // verus!

verus! {

/// Roll ids move on: a new roll never reuses the id of the roll before
/// it, nor of the one before that.
pub proof fn lemma_roll_ids_fresh(id: u64)
    ensures
        next_id(id) != id,
        next_id(next_id(id)) != id,
{
}

/// The completion timeout of a roll never times out a later roll: once
/// the roll whose start asked for the timeout has completed and a new roll
/// has started, the expired timeout changes nothing and emits nothing.
pub proof fn lemma_timeout_of_completed_roll_ignored(
    idle: RollDetector,
    first_slot: DiceSlot,
    rolling: RollDetector,
    start: RollStep,
    done: RollDetector,
    completion: Option<RollDetectorEvent>,
    next_slot: DiceSlot,
    again: RollDetector,
    restart: RollStep,
    after: RollDetector,
    timeout: Option<RollDetectorEvent>,
)
    requires
        idle.state_of() == RollState::Idle,
        handled(idle, first_slot, DiceEvent::RollStart, rolling, start),
        RollDetector::grace_post(rolling, done, completion),
        completion is Some,
        handled(done, next_slot, DiceEvent::RollStart, again, restart),
        RollDetector::timeout_post(again, start.start_timeout->0, after, timeout),
    ensures
        timeout is None,
        after == again,
{
    lemma_roll_ids_fresh(rolling.roll_id_of());
}

} // verus!
