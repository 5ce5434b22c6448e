//! Colours.

use vstd::prelude::*;

verus! {

/// A colour with alpha. Each channel is a single-precision value held as its
/// IEEE 754 bit pattern.
#[derive(Clone, Copy, Debug, PartialEq, Eq, Structural)]
pub struct Color {
    pub r: u32,
    pub g: u32,
    pub b: u32,
    pub a: u32,
}

/// The bit pattern of 1.0.
pub const ONE: u32 = 0x3F80_0000;

impl Color {
    /// The channels in the order red, green, blue, alpha.
    pub open spec fn words(self) -> Seq<u32> {
        seq![self.r, self.g, self.b, self.a]
    }

    /// The colour with these channels: red, green, blue, alpha.
    pub fn from_rgba(channels: [u32; 4]) -> (color: Color)
        ensures
            color.words() == channels@,
    {
        let color = Color { r: channels[0], g: channels[1], b: channels[2], a: channels[3] };
        assert(color.words() =~= channels@);
        color
    }

    /// The opaque colour with these channels: red, green, blue.
    pub fn from_rgb(channels: [u32; 3]) -> (color: Color)
        ensures
            color.words() == channels@.push(ONE),
    {
        let color = Color { r: channels[0], g: channels[1], b: channels[2], a: ONE };
        assert(color.words() =~= channels@.push(ONE));
        color
    }

    /// The channels as an array: red, green, blue, alpha.
    pub fn to_rgba(self) -> (channels: [u32; 4])
        ensures
            channels@ == self.words(),
    {
        let channels = [self.r, self.g, self.b, self.a];
        assert(channels@ =~= self.words());
        channels
    }
}

} // verus!
