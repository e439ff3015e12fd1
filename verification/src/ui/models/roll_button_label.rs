use vstd::prelude::*;

verus! {

/// The text displayed on the roll button.
///
/// Encodes the button label as an enum to avoid stringly-typed APIs
/// and allow localization in one place.
#[derive(Debug, Clone, Copy, PartialEq, Eq, Hash, Structural)]
pub enum RollButtonLabel {
    /// Initial state — start the first roll.
    Roll,
    /// Second roll — roll again.
    Reroll,
    /// Third and final roll — last chance.
    LastRoll,
    /// No rolls remaining — must enter a score.
    NoRollsLeft,
    /// Waiting for dice to become stable.
    Rolling,
    /// Game is over.
    GameOver,
}

impl RollButtonLabel {
    /// The label shown after `roll` rolls of the turn.
    pub open spec fn of_roll_count(roll: u8) -> RollButtonLabel {
        if roll == 0 {
            RollButtonLabel::Roll
        } else if roll == 1 {
            RollButtonLabel::Reroll
        } else if roll == 2 {
            RollButtonLabel::LastRoll
        } else {
            RollButtonLabel::NoRollsLeft
        }
    }

    /// Whether a roll can be started from this label.
    pub open spec fn sensitive(self) -> bool {
        self is Roll || self is Reroll || self is LastRoll
    }

    /// Fluent message key of the label.
    pub open spec fn key_of(self) -> Seq<char> {
        match self {
            RollButtonLabel::Roll => "roll-button-roll"@,
            RollButtonLabel::Reroll => "roll-button-reroll"@,
            RollButtonLabel::LastRoll => "roll-button-last"@,
            RollButtonLabel::NoRollsLeft => "roll-button-none"@,
            RollButtonLabel::Rolling => "roll-button-rolling"@,
            RollButtonLabel::GameOver => "roll-button-game-over"@,
        }
    }

    /// Display text of the label.
    pub open spec fn text_of(self) -> Seq<char> {
        match self {
            RollButtonLabel::Roll => "Roll"@,
            RollButtonLabel::Reroll => "Roll again"@,
            RollButtonLabel::LastRoll => "Last roll"@,
            RollButtonLabel::NoRollsLeft => "No rolls left"@,
            RollButtonLabel::Rolling => "Rolling..."@,
            RollButtonLabel::GameOver => "Game over"@,
        }
    }

    /// Whether the button should be sensitive (clickable).
    pub fn is_sensitive(self) -> (b: bool)
        ensures
            b == self.sensitive(),
    {
        match self {
            Self::Roll | Self::Reroll | Self::LastRoll => true,
            Self::NoRollsLeft | Self::Rolling | Self::GameOver => false,
        }
    }

    /// Derive the label from the number of rolls made this turn.
    pub fn from_roll_count(roll: u8) -> (label: Self)
        ensures
            label == Self::of_roll_count(roll),
    {
        match roll {
            0 => Self::Roll,
            1 => Self::Reroll,
            2 => Self::LastRoll,
            _ => Self::NoRollsLeft,
        }
    }

    /// Fluent message key used to look up the localized text.
    pub fn fluent_key(&self) -> (key: &'static str)
        ensures
            key@ == self.key_of(),
    {
        match self {
            Self::Roll => "roll-button-roll",
            Self::Reroll => "roll-button-reroll",
            Self::LastRoll => "roll-button-last",
            Self::NoRollsLeft => "roll-button-none",
            Self::Rolling => "roll-button-rolling",
            Self::GameOver => "roll-button-game-over",
        }
    }

    /// The display text of the label.
    pub fn localized(&self) -> (text: String)
        ensures
            text@ == self.text_of(),
    {
        let s: &str = match self {
            Self::Roll => "Roll",
            Self::Reroll => "Roll again",
            Self::LastRoll => "Last roll",
            Self::NoRollsLeft => "No rolls left",
            Self::Rolling => "Rolling...",
            Self::GameOver => "Game over",
        };
        String::from_str(s)
    }

    /// The display text of the label (same as `localized`).
    pub fn to_string(&self) -> (text: String)
        ensures
            text@ == self.text_of(),
    {
        self.localized()
    }
}

/// Every label shown for a roll count below three lets the player roll;
/// from the third roll on, the button is insensitive.
pub proof fn lemma_sensitive_iff_rolls_left(roll: u8)
    ensures
        RollButtonLabel::of_roll_count(roll).sensitive() <==> roll < 3,
{
}

} // verus!
