//! Pixels and randomly drawn note colors.
//!
//! The random generator itself comes from the `random_color` crate and is
//! opaque here: nothing is assumed of the colors it draws beyond their
//! shape, and every consumer is verified for whatever color came back.

use vstd::prelude::*;
use random_color::RandomColor;

verus! {

/// The outside generator of random colors, carried opaquely.
#[verifier::external_type_specification]
#[verifier::external_body]
pub struct ExRandomColor(RandomColor);

/// One LED pixel: red, green, blue, and the strip's unused fourth channel.
#[derive(Debug, PartialEq, Eq, Structural, Clone, Copy)]
pub struct Pixel {
    pub r: u8,
    pub g: u8,
    pub b: u8,
    pub pad: u8,
}

impl Pixel {
    /// The unlit pixel.
    pub open spec fn black() -> Pixel {
        Pixel { r: 0, g: 0, b: 0, pad: 0 }
    }

    /// A pixel from a drawn red/green/blue triple; the fourth channel is
    /// never used and stays dark.
    pub fn from_rgb(c: [u8; 3]) -> (p: Pixel)
        ensures
            p == (Pixel { r: c[0], g: c[1], b: c[2], pad: 0u8 }),
    {
        Pixel { r: c[0], g: c[1], b: c[2], pad: 0 }
    }
}

/// Relies on random_color::RandomColor::new: a generator seeded from the
/// operating system, ready to draw colors.
#[verifier::external_body]
pub(crate) fn new_color_gen() -> RandomColor {
    RandomColor::new()
}

/// Relies on random_color::RandomColor::to_rgb_array: draws one random
/// color as a red/green/blue byte triple. The draw is random, so nothing
/// holds of the value beyond its shape.
#[verifier::external_body]
pub(crate) fn draw_rgb(rc: &mut RandomColor) -> (c: [u8; 3])
    ensures
        c@.len() == 3,
{
    rc.to_rgb_array()
}

} // verus!
