use crate::models::led_color::LedColor;
use vstd::prelude::*;

verus! {

/// A player's color used for LED indication and UI display.
///
/// Wraps an `LedColor` to provide a semantic type specifically for
/// player identification. The color is set programmatically on the
/// physical GoDice LEDs, independent of the dice's physical color.
#[derive(Debug, Clone, Copy, PartialEq, Eq, Hash, Structural)]
pub struct PlayerColor {
    color: LedColor,
}

impl View for PlayerColor {
    type V = LedColor;

    closed spec fn view(&self) -> LedColor {
        self.color
    }
}

/// The six default player colors: red, green, blue, yellow, orange, purple.
pub open spec fn default_colors() -> Seq<LedColor> {
    seq![
        LedColor { r: 255, g: 0, b: 0 },
        LedColor { r: 0, g: 255, b: 0 },
        LedColor { r: 0, g: 0, b: 255 },
        LedColor { r: 255, g: 255, b: 0 },
        LedColor { r: 255, g: 165, b: 0 },
        LedColor { r: 128, g: 0, b: 255 },
    ]
}

impl PlayerColor {
    /// Two player colors are equal exactly when their LED colors are.
    pub proof fn lemma_view_injective(a: PlayerColor, b: PlayerColor)
        ensures
            a@ == b@ <==> a == b,
    {
    }

    /// Create a player color from an `LedColor`.
    pub fn new(color: LedColor) -> (c: PlayerColor)
        ensures
            c@ == color,
    {
        PlayerColor { color }
    }

    /// Get the underlying `LedColor` for BLE commands.
    pub fn led_color(self) -> (c: LedColor)
        ensures
            c == self@,
    {
        self.color
    }

    /// Red player color.
    pub fn red() -> (c: PlayerColor)
        ensures
            c@ == default_colors()[0],
    {
        PlayerColor { color: LedColor::red() }
    }

    /// Green player color.
    pub fn green() -> (c: PlayerColor)
        ensures
            c@ == default_colors()[1],
    {
        PlayerColor { color: LedColor::green() }
    }

    /// Blue player color.
    pub fn blue() -> (c: PlayerColor)
        ensures
            c@ == default_colors()[2],
    {
        PlayerColor { color: LedColor::blue() }
    }

    /// Yellow player color.
    pub fn yellow() -> (c: PlayerColor)
        ensures
            c@ == default_colors()[3],
    {
        PlayerColor { color: LedColor::new(255, 255, 0) }
    }

    /// Orange player color.
    pub fn orange() -> (c: PlayerColor)
        ensures
            c@ == default_colors()[4],
    {
        PlayerColor { color: LedColor::new(255, 165, 0) }
    }

    /// Purple player color.
    pub fn purple() -> (c: PlayerColor)
        ensures
            c@ == default_colors()[5],
    {
        PlayerColor { color: LedColor::new(128, 0, 255) }
    }

    /// Cyan player color.
    pub fn cyan() -> (c: PlayerColor)
        ensures
            c@ == (LedColor { r: 0, g: 255, b: 255 }),
    {
        PlayerColor { color: LedColor::new(0, 255, 255) }
    }

    /// White player color.
    pub fn white() -> (c: PlayerColor)
        ensures
            c@ == (LedColor { r: 255, g: 255, b: 255 }),
    {
        PlayerColor { color: LedColor::white() }
    }

    /// The list of distinct default player colors.
    pub fn defaults() -> (colors: [PlayerColor; 6])
        ensures
            forall|i: int| 0 <= i < 6 ==> (#[trigger] colors@[i])@ == default_colors()[i],
    {
        [Self::red(), Self::green(), Self::blue(), Self::yellow(), Self::orange(), Self::purple()]
    }
}

/// The default colors are pairwise distinct.
pub proof fn lemma_default_colors_distinct()
    ensures
        forall|i: int, j: int|
            0 <= i < j < 6 ==> #[trigger] default_colors()[i] != #[trigger] default_colors()[j],
{
}

impl From<LedColor> for PlayerColor {
    fn from(color: LedColor) -> (c: Self)
        ensures
            c@ == color,
    {
        PlayerColor { color }
    }
}

impl vstd::std_specs::convert::FromSpecImpl<LedColor> for PlayerColor {
    open spec fn obeys_from_spec() -> bool {
        true
    }

    closed spec fn from_spec(v: LedColor) -> PlayerColor {
        PlayerColor { color: v }
    }
}

} // verus!
