use crate::models::dice_color::DiceColor;
use crate::models::dice_event::DiceEvent;
use crate::models::dice_event::stable_face;
use crate::models::dice_slot::DiceSlot;
use crate::models::player_color::PlayerColor;
use crate::models::player_index::PlayerIndex;
use crate::services::game_event::GameEvent;
use crate::services::led_effect::LedEffect;
use crate::services::roll_detector::RollDetector;
use crate::services::roll_detector::RollDetectorEvent;
use crate::services::roll_detector::RollStep;
use crate::services::roll_detector::handled;
use crate::services::slot_mapping::SlotMapping;
use vstd::prelude::*;

verus! {

/// The fields of `s` between underscores, in order (`"a_b"` gives `"a"`,
/// `"b"`; a string without underscore is one field).
pub open spec fn underscore_fields(s: Seq<char>) -> Seq<Seq<char>>
    decreases s.len(),
{
    if s.len() == 0 {
        seq![Seq::empty()]
    } else {
        let fields = underscore_fields(s.drop_last());
        if s.last() == '_' {
            fields.push(Seq::empty())
        } else {
            fields.update(fields.len() - 1, fields.last().push(s.last()))
        }
    }
}

/// The first character of a field, if it has one.
pub open spec fn first_char(field: Seq<char>) -> Option<char> {
    if field.len() == 0 {
        None
    } else {
        Some(field[0])
    }
}

/// The field of a GoDice device name that holds the color code: the
/// second-to-last field (the only one if there is a single field).
pub open spec fn color_field(name: Seq<char>) -> Seq<char> {
    let fields = underscore_fields(name);
    if fields.len() >= 2 {
        fields[fields.len() - 2]
    } else {
        fields[0]
    }
}

/// The dice color named by a GoDice device name (e.g. `GoDice_320FF4_G_v04`):
/// the first character of its color field, read as a color code.
pub open spec fn color_of_name(name: Seq<char>) -> Option<DiceColor> {
    match first_char(color_field(name)) {
        Some(c) => DiceColor::of_code(c),
        None => None,
    }
}

/// A string has at least one field.
pub proof fn lemma_fields_nonempty(s: Seq<char>)
    ensures
        underscore_fields(s).len() >= 1,
    decreases s.len(),
{
    if s.len() > 0 {
        lemma_fields_nonempty(s.drop_last());
    }
}

/// Appending characters without underscore extends the last field.
proof fn lemma_fields_append_plain(s: Seq<char>, t: Seq<char>)
    requires
        !t.contains('_'),
    ensures
        underscore_fields(s + t) == underscore_fields(s).update(
            underscore_fields(s).len() - 1,
            underscore_fields(s).last() + t,
        ),
    decreases t.len(),
{
    lemma_fields_nonempty(s);
    if t.len() == 0 {
        assert(s + t =~= s);
        assert(underscore_fields(s).last() + t =~= underscore_fields(s).last());
        assert(underscore_fields(s).update(underscore_fields(s).len() - 1, underscore_fields(s).last())
            =~= underscore_fields(s));
    } else {
        let u = t.drop_last();
        assert(!u.contains('_')) by {
            if u.contains('_') {
                let k = choose|k: int| 0 <= k < u.len() && u[k] == '_';
                assert(t[k] == '_');
            }
        }
        assert(t.last() != '_') by {
            assert(t[t.len() - 1] == t.last());
        }
        lemma_fields_append_plain(s, u);
        assert((s + t).drop_last() =~= s + u);
        assert((s + t).last() == t.last());
        assert(underscore_fields(s).last() + u + seq![t.last()] =~= underscore_fields(s).last() + t);
        assert((underscore_fields(s).last() + u).push(t.last()) =~= underscore_fields(s).last() + u + seq![
            t.last(),
        ]);
    }
}

/// A GoDice device name `<prefix>_<code>_<version>`, whose code and
/// version hold no underscore, names the color of the first character of
/// its code (as in `GoDice_320FF4_G_v04`, the color code `G`).
pub proof fn lemma_color_of_godice_name(prefix: Seq<char>, code: Seq<char>, version: Seq<char>)
    requires
        code.len() > 0,
        !code.contains('_'),
        !version.contains('_'),
    ensures
        color_of_name(prefix + seq!['_'] + code + seq!['_'] + version) == DiceColor::of_code(code[0]),
{
    let f1 = underscore_fields(prefix);
    lemma_fields_nonempty(prefix);
    let s2 = prefix + seq!['_'];
    assert(s2.drop_last() =~= prefix);
    let f2 = underscore_fields(s2);
    assert(f2 == f1.push(Seq::empty()));
    let s3 = s2 + code;
    lemma_fields_append_plain(s2, code);
    let f3 = underscore_fields(s3);
    assert(Seq::<char>::empty() + code =~= code);
    assert(f3 =~= f1.push(code));
    let s4 = s3 + seq!['_'];
    assert(s4.drop_last() =~= s3);
    let f4 = underscore_fields(s4);
    assert(f4 == f3.push(Seq::empty()));
    let s5 = s4 + version;
    lemma_fields_append_plain(s4, version);
    let f5 = underscore_fields(s5);
    assert(Seq::<char>::empty() + version =~= version);
    assert(f5 =~= f1.push(code).push(version));
    assert(color_field(s5) == code);
}

/// Parse the dice color from a GoDice device name (e.g. "GoDice_320FF4_G_v04").
///
/// Returns `None` if the color code cannot be parsed.
pub fn parse_color_from_name(name: &str) -> (c: Option<DiceColor>)
    ensures
        c == color_of_name(name@),
{
    let n = name.unicode_len();
    // First characters of the last field and of the one before it, and
    // whether there are at least two fields so far.
    let mut last_first: Option<char> = None;
    let mut prev_first: Option<char> = None;
    let mut several: bool = false;
    let mut i: usize = 0;
    proof {
        assert(name@.subrange(0, 0) =~= Seq::<char>::empty());
    }
    while i < n
        invariant
            n == name@.len(),
            i <= n,
            underscore_fields(name@.subrange(0, i as int)).len() >= 1,
            several == (underscore_fields(name@.subrange(0, i as int)).len() >= 2),
            last_first == first_char(underscore_fields(name@.subrange(0, i as int)).last()),
            several ==> prev_first == first_char(
                underscore_fields(name@.subrange(0, i as int))[underscore_fields(
                    name@.subrange(0, i as int),
                ).len() - 2],
            ),
        decreases n - i,
    {
        let ghost before = name@.subrange(0, i as int);
        let ch = name.get_char(i);
        proof {
            let after = name@.subrange(0, i + 1);
            assert(after.drop_last() =~= before);
            assert(after.last() == ch);
        }
        if ch == '_' {
            prev_first = last_first;
            last_first = None;
            several = true;
        } else if last_first.is_none() {
            last_first = Some(ch);
        }
        i += 1;
    }
    proof {
        assert(name@.subrange(0, n as int) =~= name@);
    }
    let code = if several {
        prev_first
    } else {
        last_first
    };
    match code {
        Some(ch) => DiceColor::from_code(ch),
        None => None,
    }
}

/// The game event emitted directly for a dice event: `DicePickedUp` for a
/// roll start (so the UI can auto-hold the other dice), `DiceStable` for
/// every stable-type event, in or outside a roll.
pub open spec fn direct_event(slot: DiceSlot, event: DiceEvent) -> Option<GameEvent> {
    if event is RollStart {
        Some(GameEvent::DicePickedUp { slot })
    } else if let Some(face) = stable_face(event) {
        Some(GameEvent::DiceStable { slot, face })
    } else {
        None
    }
}

/// The game event a roll detector event is forwarded as. Stable dice and
/// disconnects are reported directly from the dice events, so they are
/// not forwarded a second time.
pub open spec fn forwarded(event: RollDetectorEvent) -> Option<GameEvent> {
    match event {
        RollDetectorEvent::RollStarted => Some(GameEvent::RollStarted),
        RollDetectorEvent::RollComplete { faces } => Some(GameEvent::RollComplete { faces }),
        RollDetectorEvent::RollTimedOut { faces } => Some(GameEvent::RollTimedOut { faces }),
        _ => None,
    }
}

/// The events of an optional event, as a sequence.
pub open spec fn events_of(e: Option<GameEvent>) -> Seq<GameEvent> {
    match e {
        Some(x) => seq![x],
        None => Seq::empty(),
    }
}

/// Forward a roll detector event as a game event.
pub fn forward_detector_event(event: RollDetectorEvent) -> (g: Option<GameEvent>)
    ensures
        g == forwarded(event),
{
    match event {
        RollDetectorEvent::RollStarted => Some(GameEvent::RollStarted),
        RollDetectorEvent::RollComplete { faces } => Some(GameEvent::RollComplete { faces }),
        RollDetectorEvent::RollTimedOut { faces } => Some(GameEvent::RollTimedOut { faces }),
        RollDetectorEvent::DiceStable { .. } => None,
        RollDetectorEvent::DiceDisconnected { .. } => None,
    }
}

/// Bridges raw `DiceEvent`s into high-level `GameEvent`s.
///
/// The bridge owns the roll detector. Each dice event is mapped to the game
/// events it causes and fed into the detector; the detector's own events
/// are forwarded once forwarding has been started. Listening, channels and
/// timers are the caller's: the bridge says which listener to start and
/// which events to emit.
#[derive(Debug, Clone, Copy)]
pub struct EventBridge {
    /// Roll detector for tracking roll completion.
    roll_detector: RollDetector,
    /// Which slots currently have an active listener.
    active_slots: [bool; 5],
    /// Whether roll detector forwarding has already been started.
    forwarding_started: bool,
}

impl EventBridge {
    /// The roll detector the bridge feeds.
    pub closed spec fn detector_of(&self) -> RollDetector {
        self.roll_detector
    }

    /// Which slots have an active listener.
    pub closed spec fn active_of(&self) -> Seq<bool> {
        self.active_slots@
    }

    /// Whether roll detector events are forwarded.
    pub closed spec fn forwarding_of(&self) -> bool {
        self.forwarding_started
    }

    /// The model has one entry per slot.
    pub proof fn lemma_len(&self)
        ensures
            self.active_of().len() == 5,
    {
    }

    /// Create a new event bridge: no listener is active and forwarding has
    /// not started.
    pub fn new(mapping: SlotMapping, roll_detector: RollDetector) -> (b: EventBridge)
        ensures
            b.detector_of() == roll_detector,
            b.active_of() == seq![false, false, false, false, false],
            !b.forwarding_of(),
    {
        let _ = mapping;
        let b = EventBridge { roll_detector, active_slots: [false; 5], forwarding_started: false };
        assert(b.active_slots@ =~= seq![false, false, false, false, false]);
        b
    }

    /// The roll detector.
    pub fn roll_detector(&self) -> (d: &RollDetector)
        ensures
            *d == self.detector_of(),
    {
        &self.roll_detector
    }

    /// The roll detector, to mark held dice or reset it between rolls.
    pub fn roll_detector_mut(&mut self) -> (d: &mut RollDetector)
        ensures
            *d == old(self).detector_of(),
            final(self).detector_of() == *final(d),
            final(self).active_of() == old(self).active_of(),
            final(self).forwarding_of() == old(self).forwarding_of(),
    {
        &mut self.roll_detector
    }

    /// Whether a listener is active for `slot`.
    pub fn is_active(&self, slot: DiceSlot) -> (b: bool)
        ensures
            b == self.active_of()[slot@ as int],
    {
        self.active_slots[slot.get() as usize]
    }

    /// Whether roll detector forwarding has been started.
    pub fn is_forwarding(&self) -> (b: bool)
        ensures
            b == self.forwarding_of(),
    {
        self.forwarding_started
    }

    /// Reset the active state for a slot, allowing a new listener to start.
    ///
    /// Used when a dice is swapped or its listener ends: until then the slot
    /// stays active and `start_listening` would skip the new dice.
    pub fn reset_active_slot(&mut self, slot: DiceSlot)
        ensures
            final(self).active_of() == old(self).active_of().update(slot@ as int, false),
            final(self).detector_of() == old(self).detector_of(),
            final(self).forwarding_of() == old(self).forwarding_of(),
    {
        let i = slot.get() as usize;
        self.active_slots[i] = false;
        assert(self.active_slots@ =~= old(self).active_slots@.update(i as int, false));
    }

    /// Start listening for events from the dice named `dice_name` in `slot`.
    ///
    /// Returns false, changing nothing, if a listener is already active for
    /// the slot. Otherwise the slot becomes active, the color parsed from
    /// the name (if any) is registered in the roll detector, and true is
    /// returned: the caller then starts the listener.
    pub fn start_listening(&mut self, slot: DiceSlot, dice_name: &str) -> (start: bool)
        ensures
            start == !old(self).active_of()[slot@ as int],
            !start ==> *final(self) == *old(self),
            start ==> final(self).active_of() == old(self).active_of().update(slot@ as int, true),
            start ==> final(self).detector_of().colors_of() == match color_of_name(dice_name@) {
                Some(c) => old(self).detector_of().colors_of().update(slot@ as int, Some(c)),
                None => old(self).detector_of().colors_of(),
            },
            start ==> final(self).detector_of().faces_of() == old(self).detector_of().faces_of()
                && final(self).detector_of().rolling_of() == old(self).detector_of().rolling_of()
                && final(self).detector_of().stable_of() == old(self).detector_of().stable_of()
                && final(self).detector_of().state_of() == old(self).detector_of().state_of()
                && final(self).detector_of().roll_id_of() == old(self).detector_of().roll_id_of()
                && final(self).detector_of().pending_of() == old(self).detector_of().pending_of(),
            final(self).forwarding_of() == old(self).forwarding_of(),
    {
        let i = slot.get() as usize;
        if self.active_slots[i] {
            return false;
        }
        self.active_slots[i] = true;
        assert(self.active_slots@ =~= old(self).active_slots@.update(i as int, true));
        if let Some(c) = parse_color_from_name(dice_name) {
            self.roll_detector.set_slot_color(slot, c);
        }
        true
    }

    /// Process a single dice event from `slot`, whose device is `dice_name`.
    ///
    /// Returns the game events to emit, in order, and what the roll
    /// detector asks of the runtime (timeout, grace period). The direct
    /// event of the dice event comes first, then the detector's event if
    /// forwarding has started. A disconnect emits `DiceDisconnected` with
    /// the device name, kept for reconnection.
    pub fn handle_dice_event(&mut self, slot: DiceSlot, event: &DiceEvent, dice_name: &str) -> (r: (
        Vec<GameEvent>,
        RollStep,
    ))
        ensures
            handled(old(self).detector_of(), slot, *event, final(self).detector_of(), r.1),
            final(self).active_of() == old(self).active_of(),
            final(self).forwarding_of() == old(self).forwarding_of(),
            *event is Disconnected ==> r.0@.len() == 1 && (r.0@[0] matches GameEvent::DiceDisconnected {
                slot: s,
                name,
            } && s == slot && name@ == dice_name@),
            !(*event is Disconnected) ==> r.0@ == events_of(direct_event(slot, *event)) + events_of(
                if old(self).forwarding_of() {
                    match r.1.event {
                        Some(e) => forwarded(e),
                        None => None,
                    }
                } else {
                    None
                },
            ),
    {
        let mut events: Vec<GameEvent> = Vec::new();
        match event {
            DiceEvent::RollStart => {
                events.push(GameEvent::DicePickedUp { slot });
            },
            _ => {
                if let Some(face) = event.stable_face() {
                    events.push(GameEvent::DiceStable { slot, face });
                }
            },
        }
        let ghost direct = events@;
        assert(direct =~= events_of(direct_event(slot, *event)));
        let step = self.roll_detector.handle_event(slot, event);
        if let DiceEvent::Disconnected = event {
            let mut out: Vec<GameEvent> = Vec::new();
            out.push(GameEvent::DiceDisconnected { slot, name: String::from_str(dice_name) });
            return (out, step);
        }
        let fwd = if self.forwarding_started {
            match step.event {
                Some(e) => forward_detector_event(e),
                None => None,
            }
        } else {
            None
        };
        if let Some(g) = fwd {
            events.push(g);
        }
        assert(events@ =~= direct + events_of(fwd));
        (events, step)
    }

    /// The grace period of the current roll expired: completes the roll if
    /// it is still complete (see `RollDetector::grace_expired`) and returns
    /// the game event to emit, if any.
    pub fn grace_expired(&mut self) -> (g: Option<GameEvent>)
        ensures
            exists|e: Option<RollDetectorEvent>|
                {
                    &&& #[trigger] RollDetector::grace_post(
                        old(self).detector_of(),
                        final(self).detector_of(),
                        e,
                    )
                    &&& g == if old(self).forwarding_of() {
                        match e {
                            Some(x) => forwarded(x),
                            None => None,
                        }
                    } else {
                        None
                    }
                },
            final(self).active_of() == old(self).active_of(),
            final(self).forwarding_of() == old(self).forwarding_of(),
    {
        let e = self.roll_detector.grace_expired();
        let g = if self.forwarding_started {
            match e {
                Some(x) => forward_detector_event(x),
                None => None,
            }
        } else {
            None
        };
        assert(RollDetector::grace_post(old(self).detector_of(), self.detector_of(), e));
        g
    }

    /// The completion timeout of roll `expected_roll_id` expired: times the
    /// roll out if it is still running (see `RollDetector::timeout_expired`)
    /// and returns the game event to emit, if any.
    pub fn timeout_expired(&mut self, expected_roll_id: u64) -> (g: Option<GameEvent>)
        ensures
            exists|e: Option<RollDetectorEvent>|
                {
                    &&& #[trigger] RollDetector::timeout_post(
                        old(self).detector_of(),
                        expected_roll_id,
                        final(self).detector_of(),
                        e,
                    )
                    &&& g == if old(self).forwarding_of() {
                        match e {
                            Some(x) => forwarded(x),
                            None => None,
                        }
                    } else {
                        None
                    }
                },
            final(self).active_of() == old(self).active_of(),
            final(self).forwarding_of() == old(self).forwarding_of(),
    {
        let e = self.roll_detector.timeout_expired(expected_roll_id);
        let g = if self.forwarding_started {
            match e {
                Some(x) => forward_detector_event(x),
                None => None,
            }
        } else {
            None
        };
        assert(RollDetector::timeout_post(old(self).detector_of(), expected_roll_id, self.detector_of(), e));
        g
    }

    /// Start forwarding roll detector events as game events.
    ///
    /// Returns true if forwarding was started by this call, false if it had
    /// already been started.
    pub fn start_roll_detector_forwarding(&mut self) -> (started: bool)
        ensures
            started == !old(self).forwarding_of(),
            final(self).forwarding_of(),
            final(self).detector_of() == old(self).detector_of(),
            final(self).active_of() == old(self).active_of(),
    {
        if self.forwarding_started {
            return false;
        }
        self.forwarding_started = true;
        true
    }

    /// The event announcing an active player change.
    pub fn emit_active_player_changed(&self, player_index: PlayerIndex, color: PlayerColor) -> (g: GameEvent)
        ensures
            g == (GameEvent::ActivePlayerChanged { player_index, color }),
    {
        GameEvent::ActivePlayerChanged { player_index, color }
    }

    /// The event asking for an LED effect.
    pub fn emit_led_effect(&self, effect: LedEffect) -> (g: GameEvent)
        ensures
            g == (GameEvent::ApplyLedEffect { effect }),
    {
        GameEvent::ApplyLedEffect { effect }
    }
}

} // verus!
