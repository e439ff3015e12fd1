use vstd::prelude::*;

verus! {

/// An RGB color for the LEDs of a die.
#[derive(Debug, Clone, Copy, PartialEq, Eq, Hash, Structural)]
pub struct LedColor {
    /// Red channel.
    pub r: u8,
    /// Green channel.
    pub g: u8,
    /// Blue channel.
    pub b: u8,
}

impl LedColor {
    /// Create a color from its three channels.
    pub fn new(r: u8, g: u8, b: u8) -> (c: LedColor)
        ensures
            c == (LedColor { r, g, b }),
    {
        LedColor { r, g, b }
    }

    /// LEDs off (black).
    pub fn off() -> (c: LedColor)
        ensures
            c == (LedColor { r: 0, g: 0, b: 0 }),
    {
        LedColor { r: 0, g: 0, b: 0 }
    }

    /// Pure red.
    pub fn red() -> (c: LedColor)
        ensures
            c == (LedColor { r: 255, g: 0, b: 0 }),
    {
        LedColor { r: 255, g: 0, b: 0 }
    }

    /// Pure green.
    pub fn green() -> (c: LedColor)
        ensures
            c == (LedColor { r: 0, g: 255, b: 0 }),
    {
        LedColor { r: 0, g: 255, b: 0 }
    }

    /// Pure blue.
    pub fn blue() -> (c: LedColor)
        ensures
            c == (LedColor { r: 0, g: 0, b: 255 }),
    {
        LedColor { r: 0, g: 0, b: 255 }
    }

    /// White.
    pub fn white() -> (c: LedColor)
        ensures
            c == (LedColor { r: 255, g: 255, b: 255 }),
    {
        LedColor { r: 255, g: 255, b: 255 }
    }
}

} // verus!
