//! Colours of four channels with eight bits each, and blending between them.

use vstd::prelude::*;

verus! {

/// A colour: red, green, blue and opacity, each from 0 to 255.
#[derive(Clone, Copy, Debug, PartialEq, Eq, Structural)]
pub struct Color {
    pub r: u8,
    pub g: u8,
    pub b: u8,
    pub a: u8,
}

/// One channel blended from `from` toward `to` by the factor `t`, held inside
/// the channel's range: `from + (to - from) * t`, at least 0 and at most 255.
pub open spec fn lerp_channel(from: int, to: int, t: int) -> int {
    let v = from + (to - from) * t;
    if v < 0 {
        0
    } else if v > 255 {
        255
    } else {
        v
    }
}

impl Color {
    /// The colour with the given channels.
    pub fn new(r: u8, g: u8, b: u8, a: u8) -> (c: Color)
        ensures
            c == (Color { r, g, b, a }),
    {
        Color { r, g, b, a }
    }

    /// Opaque black: the colour of the border around the image.
    pub open spec fn spec_border() -> Color {
        Color { r: 0, g: 0, b: 0, a: 255 }
    }

    /// Opaque black: the colour of the border around the image.
    #[verifier::when_used_as_spec(spec_border)]
    pub fn border() -> (c: Color)
        ensures
            c == Color::spec_border(),
    {
        Color { r: 0, g: 0, b: 0, a: 255 }
    }

    /// Opaque white: the colour to which the framebuffer is cleared.
    pub open spec fn spec_background() -> Color {
        Color { r: 255, g: 255, b: 255, a: 255 }
    }

    /// Opaque white: the colour to which the framebuffer is cleared.
    #[verifier::when_used_as_spec(spec_background)]
    pub fn background() -> (c: Color)
        ensures
            c == Color::spec_background(),
    {
        Color { r: 255, g: 255, b: 255, a: 255 }
    }

    /// This colour blended toward `toward` by the factor `t`, channel by
    /// channel.
    pub open spec fn spec_lerp(self, toward: Color, t: int) -> Color {
        Color {
            r: lerp_channel(self.r as int, toward.r as int, t) as u8,
            g: lerp_channel(self.g as int, toward.g as int, t) as u8,
            b: lerp_channel(self.b as int, toward.b as int, t) as u8,
            a: lerp_channel(self.a as int, toward.a as int, t) as u8,
        }
    }

    /// This colour blended toward `toward` by the factor `t`. A factor of zero
    /// keeps the colour, one gives `toward`, and a larger one goes on past it
    /// until the channel's range ends.
    pub fn lerp(self, toward: Color, t: u8) -> (c: Color)
        ensures
            c == self.spec_lerp(toward, t as int),
    {
        Color {
            r: blend_channel(self.r, toward.r, t),
            g: blend_channel(self.g, toward.g, t),
            b: blend_channel(self.b, toward.b, t),
            a: blend_channel(self.a, toward.a, t),
        }
    }
}

/// One channel blended from `from` toward `to` by the factor `t`.
fn blend_channel(from: u8, to: u8, t: u8) -> (r: u8)
    ensures
        r == lerp_channel(from as int, to as int, t as int),
{
    let step: i32 = to as i32 - from as i32;
    proof {
        assert(-65025 <= step * (t as i32) <= 65025) by (nonlinear_arith)
            requires
                -255 <= step <= 255,
                0 <= t as i32 <= 255,
        ;
    }
    let v: i32 = from as i32 + step * (t as i32);
    if v < 0 {
        0
    } else if v > 255 {
        255
    } else {
        v as u8
    }
}

/// A factor of zero keeps the colour and a factor of one gives the target.
pub proof fn lemma_lerp_ends(from: Color, toward: Color)
    ensures
        from.spec_lerp(toward, 0) == from,
        from.spec_lerp(toward, 1) == toward,
{
}

/// Every factor of at least one gives the border colour: its channels are at
/// the ends of the range, so going past them changes nothing.
pub proof fn lemma_lerp_saturates_at_border(from: Color, t: int)
    requires
        t >= 1,
    ensures
        from.spec_lerp(Color::spec_border(), t) == Color::spec_border(),
{
    lemma_channel_saturates(from.r as int, 0, t);
    lemma_channel_saturates(from.g as int, 0, t);
    lemma_channel_saturates(from.b as int, 0, t);
    lemma_channel_saturates(from.a as int, 255, t);
}

/// A channel blended toward an end of the range by a factor of at least one
/// is at that end.
proof fn lemma_channel_saturates(from: int, to: int, t: int)
    requires
        0 <= from <= 255,
        to == 0 || to == 255,
        t >= 1,
    ensures
        lerp_channel(from, to, t) == to,
{
    if to == 0 {
        assert((0 - from) * t <= 0 - from) by (nonlinear_arith)
            requires
                0 <= from,
                t >= 1,
        ;
    } else {
        assert((255 - from) * t >= 255 - from) by (nonlinear_arith)
            requires
                from <= 255,
                t >= 1,
        ;
    }
}

/// The colour moves toward the border as the factor grows: no channel is
/// farther from the border's than it was for a smaller factor.
pub proof fn lemma_lerp_trends_to_border(from: Color, s: int, t: int)
    requires
        0 <= s <= t,
    ensures
        from.spec_lerp(Color::spec_border(), t).r <= from.spec_lerp(Color::spec_border(), s).r,
        from.spec_lerp(Color::spec_border(), t).g <= from.spec_lerp(Color::spec_border(), s).g,
        from.spec_lerp(Color::spec_border(), t).b <= from.spec_lerp(Color::spec_border(), s).b,
        from.spec_lerp(Color::spec_border(), t).a >= from.spec_lerp(Color::spec_border(), s).a,
{
    if s >= 1 {
        lemma_lerp_saturates_at_border(from, s);
        lemma_lerp_saturates_at_border(from, t);
    } else if t >= 1 {
        lemma_lerp_saturates_at_border(from, t);
        lemma_lerp_ends(from, Color::spec_border());
    }
}

} // verus!
