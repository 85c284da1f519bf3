use vstd::prelude::*;

verus! {

/// Bit pattern of the 32-bit float channel value one (full intensity, or a
/// fully opaque alpha).
pub const CHANNEL_ONE_BITS: u32 = 0x3F80_0000;

/// An RGBA color as it travels through the command stream.
///
/// Each channel holds the IEEE-754 bit pattern of the backend's 32-bit float
/// channel value, so colors cross the core bit-exactly without any float
/// arithmetic happening here. The core never interprets the channels; it only
/// hands them to the backend.
#[derive(Copy, Clone, Debug, PartialEq, Eq, Structural)]
pub struct Color {
    /// Red channel bits.
    pub r: u32,
    /// Green channel bits.
    pub g: u32,
    /// Blue channel bits.
    pub b: u32,
    /// Alpha channel bits.
    pub a: u32,
}

impl Color {
    /// A color from the four channel bit patterns, in red, green, blue,
    /// alpha order.
    pub fn new(r: u32, g: u32, b: u32, a: u32) -> (color: Self)
        ensures
            color == (Color { r, g, b, a }),
    {
        Color { r, g, b, a }
    }

    /// Opaque black: zero bits in every color channel, alpha one.
    pub fn black() -> (color: Self)
        ensures
            color == (Color { r: 0u32, g: 0u32, b: 0u32, a: CHANNEL_ONE_BITS }),
    {
        Color { r: 0, g: 0, b: 0, a: CHANNEL_ONE_BITS }
    }
}

} // verus!
