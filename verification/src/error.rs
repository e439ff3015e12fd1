use crate::models::category::ScoreCategory;
use vstd::prelude::*;

verus! {

/// Errors that can occur during Yatzy game operations.
#[derive(Debug, Clone, PartialEq, Eq)]
pub enum YatzyError {
    /// A scorecard category was already filled or crossed out.
    CategoryAlreadyFilled(ScoreCategory),
    /// A dice slot index was out of range (valid: 0-4).
    InvalidDiceSlot(u8),
    /// A roll count was out of range (valid: 1-3).
    InvalidRollCount(u8),
    /// A round number was out of range (valid: 1-13).
    InvalidRoundNumber(u8),
    /// A player index was out of range.
    InvalidPlayerIndex(usize),
    /// A player name was empty.
    EmptyPlayerName,
    /// The game is already over.
    GameOver,
    /// Not enough players to start a game (minimum: 1).
    NotEnoughPlayers(usize),
    /// A face value was invalid.
    InvalidFaceValue(u8),
    /// A BLE operation failed (scan, connect, reconnect, LED command).
    Ble(String),
    /// A mutex lock was poisoned by a panicking thread.
    LockPoisoned,
    /// A dice was not found in the slot mapping.
    DiceNotFound(u8),
    /// Not all 5 dice slots are assigned.
    NotAllDiceAssigned(usize),
    /// An action was attempted when it's not the player's turn.
    NotYourTurn(usize),
    /// An action was attempted in the wrong turn phase.
    PhaseMismatch(String, String),
    /// An action was attempted but dice are not connected.
    DiceNotConnected(usize),
    /// An action was attempted after the game is over.
    GameAlreadyOver,
    /// A probability was requested for a fraction outside [0, 1]
    /// (numerator, denominator); a zero denominator is also invalid.
    InvalidProbability(u64, u64),
    /// A player count was outside the valid range [1, 6].
    InvalidPlayerCount(u8),
    /// Too many players for a game (maximum: 6).
    TooManyPlayers(usize),
    /// Two players were assigned the same color.
    DuplicateColor(String),
    /// Two players were assigned the same name.
    DuplicateName(String),
    /// A settings file I/O operation failed.
    SettingsIoError(String),
    /// A settings file could not be parsed.
    SettingsParseError(String),
    /// A dice reconnection attempt failed.
    ReconnectionFailed(String),
}

/// Convenience type alias used throughout the crate.
pub type Result<T> = std::result::Result<T, YatzyError>;

} // verus!
