//! RGB colors with one byte per channel.
use vstd::prelude::*;

verus! {

/// The largest intensity a channel can hold.
pub const CHANNEL_MAX: u8 = 255;

/// Sum of two channel intensities, clamped at full intensity.
pub open spec fn channel_sum(a: u8, b: u8) -> u8 {
    if a + b > CHANNEL_MAX {
        CHANNEL_MAX
    } else {
        (a + b) as u8
    }
}

/// Product of two channel intensities, clamped at full intensity.
pub open spec fn channel_product(a: u8, b: u8) -> u8 {
    if a * b > CHANNEL_MAX {
        CHANNEL_MAX
    } else {
        (a * b) as u8
    }
}

/// An RGB color: red, green and blue intensities in `0..=255`.
#[derive(Debug, PartialEq, Eq, Structural)]
pub struct Color(pub u8, pub u8, pub u8);

impl Color {
    /// The channel-wise saturating sum of two colors.
    pub open spec fn blend_add(self, other: Color) -> Color {
        Color(
            channel_sum(self.0, other.0),
            channel_sum(self.1, other.1),
            channel_sum(self.2, other.2),
        )
    }

    /// The channel-wise saturating product of two colors.
    pub open spec fn blend_multiply(self, other: Color) -> Color {
        Color(
            channel_product(self.0, other.0),
            channel_product(self.1, other.1),
            channel_product(self.2, other.2),
        )
    }

    /// Adds two colors channel by channel; a channel that would pass 255
    /// stays at 255 instead of wrapping.
    pub fn add(&self, other: &Color) -> (r: Color)
        ensures
            r == self.blend_add(*other),
    {
        let Color(r1, g1, b1) = *self;
        let Color(r2, g2, b2) = *other;

        Color(r1.saturating_add(r2), g1.saturating_add(g2), b1.saturating_add(b2))
    }

    /// Multiplies two colors channel by channel; a channel that would pass
    /// 255 stays at 255 instead of wrapping.
    pub fn multiply(&self, other: &Color) -> (r: Color)
        ensures
            r == self.blend_multiply(*other),
    {
        let Color(r1, g1, b1) = *self;
        let Color(r2, g2, b2) = *other;

        Color(saturating_product(r1, r2), saturating_product(g1, g2), saturating_product(b1, b2))
    }
}

/// The product of two channel intensities, clamped at full intensity.
fn saturating_product(a: u8, b: u8) -> (r: u8)
    ensures
        r == channel_product(a, b),
{
    match a.checked_mul(b) {
        Some(p) => p,
        None => CHANNEL_MAX,
    }
}

/// Saturating addition of colors does not depend on the order of the
/// operands, and neither does saturating multiplication.
pub proof fn lemma_blend_commutative(c1: Color, c2: Color)
    ensures
        c1.blend_add(c2) == c2.blend_add(c1),
        c1.blend_multiply(c2) == c2.blend_multiply(c1),
{
    assert(c1.0 * c2.0 == c2.0 * c1.0) by (nonlinear_arith);
    assert(c1.1 * c2.1 == c2.1 * c1.1) by (nonlinear_arith);
    assert(c1.2 * c2.2 == c2.2 * c1.2) by (nonlinear_arith);
}

} // verus!
