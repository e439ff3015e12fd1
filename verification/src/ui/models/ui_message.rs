use crate::ui::models::decimal::decimal;
use crate::ui::models::decimal::push_decimal;
use vstd::prelude::*;

verus! {

/// A user-facing message displayed in the UI status area.
///
/// Wraps the message text in a newtype to avoid stringly-typed APIs
/// and allow future localization.
#[derive(Debug, Clone, Eq, Hash)]
pub struct UiMessage(String);

impl View for UiMessage {
    type V = Seq<char>;

    /// The text of the message.
    closed spec fn view(&self) -> Seq<char> {
        self.0@
    }
}

/// Text of the "found dice" message.
pub open spec fn devices_found_text(count: nat) -> Seq<char> {
    "Found "@ + decimal(count) + " dice"@
}

/// Text of the "dice connected" message.
pub open spec fn dice_connected_text(slot: nat, name: Seq<char>) -> Seq<char> {
    "Dice "@ + decimal(slot) + " connected: "@ + name
}

/// Text of the "connection failed" message.
pub open spec fn connection_failed_text(name: Seq<char>, error: Seq<char>) -> Seq<char> {
    "Connection to "@ + name + " failed: "@ + error
}

/// Text of the "scan failed" message.
pub open spec fn scan_failed_text(error: Seq<char>) -> Seq<char> {
    "Scan failed: "@ + error
}

/// Text of the "dice disconnected" message.
pub open spec fn dice_disconnected_text(slot: nat) -> Seq<char> {
    "Dice "@ + decimal(slot) + " disconnected"@
}

/// Text of the "score entered" message.
pub open spec fn score_entered_text(player: Seq<char>, category: Seq<char>, score: nat) -> Seq<char> {
    player + " scored "@ + decimal(score) + " in "@ + category
}

/// Text of the "waiting for roll" message.
pub open spec fn waiting_for_roll_text(player: Seq<char>) -> Seq<char> {
    "Waiting for "@ + player + " to roll"@
}

/// Text of the "hold toggled" message.
pub open spec fn hold_toggled_text(slot: nat, held: bool) -> Seq<char> {
    "Dice "@ + decimal(slot) + if held {
        " held"@
    } else {
        " released"@
    }
}

impl UiMessage {
    /// Create a new UI message with the given text.
    pub fn new(text: &str) -> (m: Self)
        ensures
            m@ == text@,
    {
        UiMessage(String::from_str(text))
    }

    /// Get the message text.
    pub fn as_str(&self) -> (s: &str)
        ensures
            s@ == self@,
    {
        self.0.as_str()
    }

    /// The message text (same as `as_str`, as an owned string).
    pub fn to_string(&self) -> (s: String)
        ensures
            s@ == self@,
    {
        String::from_str(self.0.as_str())
    }

    /// A ready-state message.
    pub fn ready() -> (m: Self)
        ensures
            m@ == "Ready"@,
    {
        Self::new("Ready")
    }

    /// A scanning message.
    pub fn scanning() -> (m: Self)
        ensures
            m@ == "Scanning for dice..."@,
    {
        Self::new("Scanning for dice...")
    }

    /// A no-devices-found message.
    pub fn no_devices() -> (m: Self)
        ensures
            m@ == "No dice found"@,
    {
        Self::new("No dice found")
    }

    /// A devices-found message, with the number of dice found.
    pub fn devices_found(count: usize) -> (m: Self)
        ensures
            m@ == devices_found_text(count as nat),
    {
        let mut s = String::from_str("Found ");
        push_decimal(&mut s, count as u64);
        s.append(" dice");
        UiMessage(s)
    }

    /// A dice-connected message, with the slot and the device name.
    pub fn dice_connected(slot: u8, name: &str) -> (m: Self)
        ensures
            m@ == dice_connected_text(slot as nat, name@),
    {
        let mut s = String::from_str("Dice ");
        push_decimal(&mut s, slot as u64);
        s.append(" connected: ");
        s.append(name);
        UiMessage(s)
    }

    /// An all-dice-connected message.
    pub fn all_dice_connected() -> (m: Self)
        ensures
            m@ == "All dice connected"@,
    {
        Self::new("All dice connected")
    }

    /// A connection-failed message, with the device name and the error.
    pub fn connection_failed(name: &str, error: &str) -> (m: Self)
        ensures
            m@ == connection_failed_text(name@, error@),
    {
        let mut s = String::from_str("Connection to ");
        s.append(name);
        s.append(" failed: ");
        s.append(error);
        UiMessage(s)
    }

    /// A scan-failed message, with the error.
    pub fn scan_failed(error: &str) -> (m: Self)
        ensures
            m@ == scan_failed_text(error@),
    {
        let mut s = String::from_str("Scan failed: ");
        s.append(error);
        UiMessage(s)
    }

    /// A roll-started message.
    pub fn roll_started() -> (m: Self)
        ensures
            m@ == "Rolling..."@,
    {
        Self::new("Rolling...")
    }

    /// A roll-complete message.
    pub fn roll_complete() -> (m: Self)
        ensures
            m@ == "Roll complete"@,
    {
        Self::new("Roll complete")
    }

    /// A roll-timed-out message.
    pub fn roll_timed_out() -> (m: Self)
        ensures
            m@ == "Roll timed out"@,
    {
        Self::new("Roll timed out")
    }

    /// A dice-disconnected message, with the slot.
    pub fn dice_disconnected(slot: u8) -> (m: Self)
        ensures
            m@ == dice_disconnected_text(slot as nat),
    {
        let mut s = String::from_str("Dice ");
        push_decimal(&mut s, slot as u64);
        s.append(" disconnected");
        UiMessage(s)
    }

    /// A score-entered message, with the player, the category and the score.
    pub fn score_entered(player: &str, category: &str, score: u32) -> (m: Self)
        ensures
            m@ == score_entered_text(player@, category@, score as nat),
    {
        let mut s = String::from_str(player);
        s.append(" scored ");
        push_decimal(&mut s, score as u64);
        s.append(" in ");
        s.append(category);
        UiMessage(s)
    }

    /// A game-over message.
    pub fn game_over() -> (m: Self)
        ensures
            m@ == "Game over"@,
    {
        Self::new("Game over")
    }

    /// A waiting-for-roll message, with the player.
    pub fn waiting_for_roll(player: &str) -> (m: Self)
        ensures
            m@ == waiting_for_roll_text(player@),
    {
        let mut s = String::from_str("Waiting for ");
        s.append(player);
        s.append(" to roll");
        UiMessage(s)
    }

    /// A hold-toggled message, with the slot and whether it is now held.
    pub fn hold_toggled(slot: u8, held: bool) -> (m: Self)
        ensures
            m@ == hold_toggled_text(slot as nat, held),
    {
        let mut s = String::from_str("Dice ");
        push_decimal(&mut s, slot as u64);
        if held {
            s.append(" held");
        } else {
            s.append(" released");
        }
        UiMessage(s)
    }
}

impl PartialEq for UiMessage {
    fn eq(&self, other: &Self) -> (r: bool) {
        self.0 == other.0
    }
}

impl vstd::std_specs::cmp::PartialEqSpecImpl for UiMessage {
    open spec fn obeys_eq_spec() -> bool {
        true
    }

    open spec fn eq_spec(&self, other: &Self) -> bool {
        self@ == other@
    }
}

impl From<String> for UiMessage {
    fn from(s: String) -> (m: Self)
        ensures
            m@ == s@,
    {
        UiMessage(s)
    }
}

impl vstd::std_specs::convert::FromSpecImpl<String> for UiMessage {
    open spec fn obeys_from_spec() -> bool {
        true
    }

    closed spec fn from_spec(v: String) -> UiMessage {
        UiMessage(v)
    }
}

impl<'a> From<&'a str> for UiMessage {
    fn from(s: &'a str) -> (m: Self)
        ensures
            m@ == s@,
    {
        UiMessage(String::from_str(s))
    }
}

impl<'a> vstd::std_specs::convert::FromSpecImpl<&'a str> for UiMessage {
    /// The message's `String` is a fresh copy of the text, of which only
    /// its characters are known, so no spec value stands for it.
    open spec fn obeys_from_spec() -> bool {
        false
    }

    closed spec fn from_spec(v: &'a str) -> UiMessage {
        arbitrary()
    }
}

} // verus!
