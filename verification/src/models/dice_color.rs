use crate::models::led_color::LedColor;
use vstd::prelude::*;

verus! {

/// The physical body color of a GoDice die.
#[derive(Debug, Clone, Copy, PartialEq, Eq, Hash, Structural)]
pub enum DiceColor {
    /// Black die.
    Black,
    /// Red die.
    Red,
    /// Green die.
    Green,
    /// Blue die.
    Blue,
    /// Yellow die.
    Yellow,
    /// Orange die.
    Orange,
}

impl DiceColor {
    /// The color whose one-letter code is `code`: `K` black, `R` red,
    /// `G` green, `B` blue, `Y` yellow, `O` orange.
    pub open spec fn of_code(code: char) -> Option<DiceColor> {
        if code == 'K' {
            Some(DiceColor::Black)
        } else if code == 'R' {
            Some(DiceColor::Red)
        } else if code == 'G' {
            Some(DiceColor::Green)
        } else if code == 'B' {
            Some(DiceColor::Blue)
        } else if code == 'Y' {
            Some(DiceColor::Yellow)
        } else if code == 'O' {
            Some(DiceColor::Orange)
        } else {
            None
        }
    }

    /// The LED color that shows a die's body color.
    pub open spec fn led_of(self) -> LedColor {
        match self {
            DiceColor::Black => LedColor { r: 51, g: 51, b: 51 },
            DiceColor::Red => LedColor { r: 255, g: 0, b: 0 },
            DiceColor::Green => LedColor { r: 0, g: 255, b: 0 },
            DiceColor::Blue => LedColor { r: 0, g: 0, b: 255 },
            DiceColor::Yellow => LedColor { r: 255, g: 200, b: 0 },
            DiceColor::Orange => LedColor { r: 255, g: 100, b: 0 },
        }
    }

    /// Display name of the color.
    pub open spec fn text_of(self) -> Seq<char> {
        match self {
            DiceColor::Black => "black"@,
            DiceColor::Red => "red"@,
            DiceColor::Green => "green"@,
            DiceColor::Blue => "blue"@,
            DiceColor::Yellow => "yellow"@,
            DiceColor::Orange => "orange"@,
        }
    }

    /// The color for a one-letter color code, if the code is known.
    pub fn from_code(code: char) -> (c: Option<DiceColor>)
        ensures
            c == Self::of_code(code),
    {
        if code == 'K' {
            Some(DiceColor::Black)
        } else if code == 'R' {
            Some(DiceColor::Red)
        } else if code == 'G' {
            Some(DiceColor::Green)
        } else if code == 'B' {
            Some(DiceColor::Blue)
        } else if code == 'Y' {
            Some(DiceColor::Yellow)
        } else if code == 'O' {
            Some(DiceColor::Orange)
        } else {
            None
        }
    }

    /// Convert the body color to an LED color for LED display.
    pub fn to_led(self) -> (c: LedColor)
        ensures
            c == self.led_of(),
    {
        match self {
            DiceColor::Black => LedColor::new(51, 51, 51),
            DiceColor::Red => LedColor::red(),
            DiceColor::Green => LedColor::green(),
            DiceColor::Blue => LedColor::blue(),
            DiceColor::Yellow => LedColor::new(255, 200, 0),
            DiceColor::Orange => LedColor::new(255, 100, 0),
        }
    }

    /// Display name of the color, used in status messages.
    pub fn name(self) -> (s: String)
        ensures
            s@ == self.text_of(),
    {
        match self {
            DiceColor::Black => String::from_str("black"),
            DiceColor::Red => String::from_str("red"),
            DiceColor::Green => String::from_str("green"),
            DiceColor::Blue => String::from_str("blue"),
            DiceColor::Yellow => String::from_str("yellow"),
            DiceColor::Orange => String::from_str("orange"),
        }
    }
}

} // verus!
