//! The aspect-fit transform: from clip space to sampling coordinates.
//!
//! A clip-space position in `[-1, 1]²` is mapped to unit texture space, scaled
//! about the centre along one axis so that the texture keeps its aspect ratio
//! inside the viewport, and flipped vertically. Coordinates that leave
//! `[0, 1]` mark the border around the image.

use vstd::prelude::*;
use crate::scalar::{lemma_positive_product, lemma_product_bound, Scalar, Vec2, SCALAR_MAX};

verus! {

/// The denominator of the smallest aspect ratio or extent that is divided by.
pub const MIN_ASPECT_DEN: i128 = 1_000_000;

/// The smallest aspect ratio or extent that is divided by: one millionth.
pub open spec fn min_aspect() -> real {
    1real / 1_000_000real
}

/// The larger of two real numbers.
pub open spec fn real_max(a: real, b: real) -> real {
    if a >= b {
        a
    } else {
        b
    }
}

/// The larger of two integers.
pub open spec fn int_max(a: int, b: int) -> int {
    if a >= b {
        a
    } else {
        b
    }
}

/// A clip-space coordinate in unit texture space.
pub open spec fn unit_of_clip(c: real) -> real {
    c / 2real + 1real / 2real
}

/// The coordinate `c` scaled by `factor` about the centre of the unit interval.
pub open spec fn scaled_about_center(c: real, factor: real) -> real {
    (c - 1real / 2real) * factor + 1real / 2real
}

/// The factor by which the horizontal coordinate is scaled: the viewport's
/// aspect ratio over the texture's where the viewport is at least as wide,
/// else one. Both ratios are first raised to [`min_aspect`].
pub open spec fn horizontal_scale(viewport_aspect: real, texture_aspect: real) -> real {
    let v = real_max(viewport_aspect, min_aspect());
    let t = real_max(texture_aspect, min_aspect());
    if v >= t {
        v / t
    } else {
        1real
    }
}

/// The factor by which the vertical coordinate is scaled: the texture's
/// aspect ratio over the viewport's where the viewport is narrower, else one.
pub open spec fn vertical_scale(viewport_aspect: real, texture_aspect: real) -> real {
    let v = real_max(viewport_aspect, min_aspect());
    let t = real_max(texture_aspect, min_aspect());
    if v >= t {
        1real
    } else {
        t / v
    }
}

/// How far one coordinate is out of the unit interval's interior: one where it
/// is at least one or at most zero, else zero.
pub open spec fn axis_mask(c: real) -> int {
    (if c >= 1real { 1int } else { 0int }) + (if c <= 0real { 1int } else { 0int })
}

/// The smallest extent that is divided by, as a fraction.
pub fn min_aspect_scalar() -> (r: Scalar)
    ensures
        r.wf(),
        r@ == min_aspect(),
        r.num == 1,
        r.den == MIN_ASPECT_DEN,
{
    Scalar { num: 1, den: MIN_ASPECT_DEN }
}

/// `s` raised to [`min_aspect`]: the result is positive and can be divided by.
pub fn clamp_positive(s: Scalar) -> (r: Scalar)
    requires
        s.wf(),
        s.magnitude() * MIN_ASPECT_DEN <= SCALAR_MAX,
    ensures
        r.wf(),
        r.num > 0,
        r@ == real_max(s@, min_aspect()),
        r.magnitude() <= int_max(s.magnitude(), MIN_ASPECT_DEN as int),
{
    let floor = min_aspect_scalar();
    proof {
        let n = s.num as real;
        let d = s.den as real;
        assert(n / d >= 1real / 1_000_000real ==> n > 0real) by (nonlinear_arith)
            requires
                d > 0real,
        ;
    }
    s.max(floor)
}

/// Maps a clip-space position to unit texture space: `p / 2 + 1 / 2` on each
/// axis.
pub fn uv(clip_space_pos: Vec2) -> (r: Vec2)
    requires
        clip_space_pos.wf(),
        2 * clip_space_pos.magnitude() <= SCALAR_MAX,
    ensures
        r.wf(),
        r.x@ == unit_of_clip(clip_space_pos.x@),
        r.y@ == unit_of_clip(clip_space_pos.y@),
        r.x.magnitude() <= 2 * clip_space_pos.x.magnitude(),
        r.y.magnitude() <= 2 * clip_space_pos.y.magnitude(),
{
    Vec2 { x: unit_scalar(clip_space_pos.x), y: unit_scalar(clip_space_pos.y) }
}

/// One clip-space coordinate in unit texture space.
fn unit_scalar(c: Scalar) -> (r: Scalar)
    requires
        c.wf(),
        2 * c.magnitude() <= SCALAR_MAX,
    ensures
        r.wf(),
        r@ == unit_of_clip(c@),
        r.magnitude() <= 2 * c.magnitude(),
{
    let r = Scalar { num: c.num + c.den, den: 2 * c.den };
    proof {
        let n = c.num as real;
        let d = c.den as real;
        assert((c.num + c.den) as real == n + d);
        assert((2 * c.den) as real == 2real * d);
        assert((n + d) / (2real * d) == (n / d) / 2real + 1real / 2real) by (nonlinear_arith)
            requires
                d > 0real,
        ;
    }
    r
}

/// The position in window pixels that belongs to a clip-space position: its
/// unit coordinates times the window's size.
pub fn fragcoord(clip_space_pos: Vec2, window_size: Vec2) -> (r: Vec2)
    requires
        clip_space_pos.wf(),
        window_size.wf(),
        2 * (clip_space_pos.magnitude() * window_size.magnitude()) <= SCALAR_MAX,
    ensures
        r.wf(),
        r.x@ == unit_of_clip(clip_space_pos.x@) * window_size.x@,
        r.y@ == unit_of_clip(clip_space_pos.y@) * window_size.y@,
        r.magnitude() <= 2 * (clip_space_pos.magnitude() * window_size.magnitude()),
{
    proof {
        assert(1 <= window_size.magnitude());
        assert(2 * clip_space_pos.magnitude() <= 2 * (clip_space_pos.magnitude()
            * window_size.magnitude())) by (nonlinear_arith)
            requires
                1 <= window_size.magnitude(),
                0 <= clip_space_pos.magnitude(),
        ;
    }
    let unit = uv(clip_space_pos);
    proof {
        lemma_product_bound(
            unit.x.magnitude(),
            window_size.x.magnitude(),
            2 * clip_space_pos.magnitude(),
            window_size.magnitude(),
        );
        lemma_product_bound(
            unit.y.magnitude(),
            window_size.y.magnitude(),
            2 * clip_space_pos.magnitude(),
            window_size.magnitude(),
        );
        assert((2 * clip_space_pos.magnitude()) * window_size.magnitude() == 2 * (
        clip_space_pos.magnitude() * window_size.magnitude())) by (nonlinear_arith);
    }
    Vec2 { x: unit.x.times(window_size.x), y: unit.y.times(window_size.y) }
}

/// Mirrors the vertical coordinate in the unit interval, so that the first
/// row of the texture is the top one: `(x, 1 - y)`.
pub fn flip_v(uv: Vec2) -> (r: Vec2)
    requires
        uv.wf(),
        2 * uv.y.magnitude() <= SCALAR_MAX,
    ensures
        r.wf(),
        r.x == uv.x,
        r.y@ == 1real - uv.y@,
        r.y.magnitude() <= 2 * uv.y.magnitude(),
{
    let y = Scalar { num: uv.y.den - uv.y.num, den: uv.y.den };
    proof {
        let n = uv.y.num as real;
        let d = uv.y.den as real;
        assert((uv.y.den - uv.y.num) as real == d - n);
        assert((d - n) / d == 1real - n / d) by (nonlinear_arith)
            requires
                d > 0real,
        ;
    }
    Vec2 { x: uv.x, y }
}

/// A magnitude raised to that of [`min_aspect`].
pub open spec fn raised(m: int) -> int {
    int_max(m, MIN_ASPECT_DEN as int)
}

/// The aspect ratio of a size: its width over its height, the height raised to
/// [`min_aspect`] so that a degenerate size divides by no zero.
pub fn aspect_ratio(size: Vec2) -> (r: Scalar)
    requires
        size.wf(),
        raised(size.x.magnitude()) * raised(size.y.magnitude()) <= SCALAR_MAX,
    ensures
        r.wf(),
        r@ == size.x@ / real_max(size.y@, min_aspect()),
        r.magnitude() <= raised(size.x.magnitude()) * raised(size.y.magnitude()),
{
    proof {
        lemma_product_bound(
            MIN_ASPECT_DEN as int,
            size.y.magnitude(),
            raised(size.x.magnitude()),
            raised(size.y.magnitude()),
        );
        assert(size.y.magnitude() * MIN_ASPECT_DEN == MIN_ASPECT_DEN * size.y.magnitude())
            by (nonlinear_arith);
    }
    let height = clamp_positive(size.y);
    proof {
        lemma_product_bound(
            size.x.magnitude(),
            height.magnitude(),
            raised(size.x.magnitude()),
            raised(size.y.magnitude()),
        );
    }
    size.x.over(height)
}

/// Scales one unit coordinate by `factor` about the centre.
pub fn scale_about_center(c: Scalar, factor: Scalar) -> (r: Scalar)
    requires
        c.wf(),
        factor.wf(),
        16 * (c.magnitude() * factor.magnitude()) <= SCALAR_MAX,
    ensures
        r.wf(),
        r@ == scaled_about_center(c@, factor@),
        r.magnitude() <= 16 * (c.magnitude() * factor.magnitude()),
{
    let half = Scalar::half();
    proof {
        assert(half.magnitude() == 2);
        assert(1 <= factor.magnitude());
        assert(c.magnitude() <= c.magnitude() * factor.magnitude()) by (nonlinear_arith)
            requires
                1 <= factor.magnitude(),
                0 <= c.magnitude(),
        ;
    }
    let centered = c.minus(half);
    proof {
        lemma_product_bound(
            centered.magnitude(),
            factor.magnitude(),
            4 * c.magnitude(),
            factor.magnitude(),
        );
        assert((4 * c.magnitude()) * factor.magnitude() == 4 * (c.magnitude()
            * factor.magnitude())) by (nonlinear_arith);
    }
    let scaled = centered.times(factor);
    scaled.plus(half)
}

/// Fits the texture into the viewport without distortion. Where the viewport
/// is at least as wide as the texture, relative to their heights, the
/// horizontal coordinate is scaled about the centre by the ratio of the two
/// aspect ratios; else the vertical one is, by the inverse ratio. The other
/// coordinate is returned as it came.
pub fn preserve_aspect_ratio(viewport_aspect: Scalar, texture_aspect: Scalar, uv: Vec2) -> (r:
    Vec2)
    requires
        viewport_aspect.wf(),
        texture_aspect.wf(),
        uv.wf(),
        16 * (uv.magnitude() * (raised(viewport_aspect.magnitude()) * raised(
            texture_aspect.magnitude(),
        ))) <= SCALAR_MAX,
    ensures
        r.wf(),
        r.x@ == scaled_about_center(uv.x@, horizontal_scale(viewport_aspect@, texture_aspect@)),
        r.y@ == scaled_about_center(uv.y@, vertical_scale(viewport_aspect@, texture_aspect@)),
        r.magnitude() <= 16 * (uv.magnitude() * (raised(viewport_aspect.magnitude()) * raised(
            texture_aspect.magnitude(),
        ))),
{
    let ghost rv = raised(viewport_aspect.magnitude());
    let ghost rt = raised(texture_aspect.magnitude());
    let ghost m = uv.magnitude();
    proof {
        assert(1 <= m);
        lemma_positive_product(rv, rt);
        assert(rv * rt <= 16 * (m * (rv * rt)) && m <= 16 * (m * (rv * rt))) by (nonlinear_arith)
            requires
                1 <= m,
                1 <= rv * rt,
        ;
        lemma_product_bound(viewport_aspect.magnitude(), MIN_ASPECT_DEN as int, rv, rt);
        lemma_product_bound(MIN_ASPECT_DEN as int, texture_aspect.magnitude(), rv, rt);
        assert(texture_aspect.magnitude() * MIN_ASPECT_DEN == MIN_ASPECT_DEN
            * texture_aspect.magnitude()) by (nonlinear_arith);
    }
    let v = clamp_positive(viewport_aspect);
    let t = clamp_positive(texture_aspect);
    proof {
        lemma_product_bound(v.magnitude(), t.magnitude(), rv, rt);
        lemma_product_bound(t.magnitude(), v.magnitude(), rt, rv);
        assert(rt * rv == rv * rt) by (nonlinear_arith);
        lemma_over_one_is_identity(uv.x@);
        lemma_over_one_is_identity(uv.y@);
    }
    if v.ge(t) {
        let factor = v.over(t);
        proof {
            lemma_product_bound(uv.x.magnitude(), factor.magnitude(), m, rv * rt);
        }
        Vec2 { x: scale_about_center(uv.x, factor), y: uv.y }
    } else {
        let factor = t.over(v);
        proof {
            lemma_product_bound(uv.y.magnitude(), factor.magnitude(), m, rv * rt);
        }
        Vec2 { x: uv.x, y: scale_about_center(uv.y, factor) }
    }
}

/// Scaling by one moves nothing.
pub proof fn lemma_over_one_is_identity(c: real)
    ensures
        scaled_about_center(c, 1real) == c,
{
    assert((c - 1real / 2real) * 1real + 1real / 2real == c) by (nonlinear_arith);
}

/// The border mask of a sampling position, one number per axis: one where the
/// coordinate is at least one or at most zero, else zero.
pub fn border_mask(uv: Vec2) -> (r: (u8, u8))
    requires
        uv.wf(),
    ensures
        r.0 == axis_mask(uv.x@),
        r.1 == axis_mask(uv.y@),
{
    (axis_mask_of(uv.x), axis_mask_of(uv.y))
}

/// The border mask of one coordinate.
fn axis_mask_of(c: Scalar) -> (r: u8)
    requires
        c.wf(),
    ensures
        r == axis_mask(c@),
{
    let high: u8 = if c.at_least_one() { 1 } else { 0 };
    let low: u8 = if c.at_most_zero() { 1 } else { 0 };
    high + low
}

/// The factor by which a fragment is blended toward the border colour: the
/// sum of the border mask over both axes.
pub fn blend_factor(uv: Vec2) -> (r: u8)
    requires
        uv.wf(),
    ensures
        r == axis_mask(uv.x@) + axis_mask(uv.y@),
{
    let mask = border_mask(uv);
    mask.0 + mask.1
}

/// Where viewport and texture have the same aspect ratio, the transform
/// leaves every position where it is.
pub proof fn lemma_equal_aspects_are_identity(aspect: real, u: real, v: real)
    ensures
        scaled_about_center(u, horizontal_scale(aspect, aspect)) == u,
        scaled_about_center(v, vertical_scale(aspect, aspect)) == v,
{
    let a = real_max(aspect, min_aspect());
    assert(a > 0real);
    assert(a / a == 1real) by (nonlinear_arith)
        requires
            a > 0real,
    ;
    lemma_over_one_is_identity(u);
    lemma_over_one_is_identity(v);
}

/// Where the viewport's aspect ratio is twice the texture's, the horizontal
/// coordinate is scaled by exactly two and the vertical one is not scaled.
pub proof fn lemma_twice_as_wide_scales_by_two(texture_aspect: real)
    requires
        texture_aspect >= min_aspect(),
    ensures
        horizontal_scale(2real * texture_aspect, texture_aspect) == 2real,
        vertical_scale(2real * texture_aspect, texture_aspect) == 1real,
{
    let t = texture_aspect;
    assert(t > 0real);
    assert((2real * t) / t == 2real) by (nonlinear_arith)
        requires
            t > 0real,
    ;
}

/// Both scale factors are at least one, and one of them is one.
pub proof fn lemma_scales_are_at_least_one(viewport_aspect: real, texture_aspect: real)
    ensures
        horizontal_scale(viewport_aspect, texture_aspect) >= 1real,
        vertical_scale(viewport_aspect, texture_aspect) >= 1real,
        horizontal_scale(viewport_aspect, texture_aspect) == 1real || vertical_scale(
            viewport_aspect,
            texture_aspect,
        ) == 1real,
{
    let v = real_max(viewport_aspect, min_aspect());
    let t = real_max(texture_aspect, min_aspect());
    assert(v > 0real && t > 0real);
    assert(v >= t ==> v / t >= 1real) by (nonlinear_arith)
        requires
            t > 0real,
    ;
    assert(v < t ==> t / v >= 1real) by (nonlinear_arith)
        requires
            v > 0real,
    ;
}

/// Applying the transform a second time changes nothing exactly where it is
/// the identity: for a coordinate off the centre, scaling twice equals scaling
/// once if and only if the factor is one.
pub proof fn lemma_idempotent_only_for_identity(
    viewport_aspect: real,
    texture_aspect: real,
    u: real,
    v: real,
)
    requires
        u != 1real / 2real,
        v != 1real / 2real,
    ensures
        ({
            let f = horizontal_scale(viewport_aspect, texture_aspect);
            scaled_about_center(scaled_about_center(u, f), f) == scaled_about_center(u, f) <==> f
                == 1real
        }),
        ({
            let f = vertical_scale(viewport_aspect, texture_aspect);
            scaled_about_center(scaled_about_center(v, f), f) == scaled_about_center(v, f) <==> f
                == 1real
        }),
{
    lemma_scales_are_at_least_one(viewport_aspect, texture_aspect);
    let f = horizontal_scale(viewport_aspect, texture_aspect);
    let g = vertical_scale(viewport_aspect, texture_aspect);
    lemma_rescaling(u, f);
    lemma_rescaling(v, g);
}

/// For a coordinate off the centre and a factor of at least one, scaling
/// twice equals scaling once if and only if the factor is one.
proof fn lemma_rescaling(c: real, f: real)
    requires
        c != 1real / 2real,
        f >= 1real,
    ensures
        scaled_about_center(scaled_about_center(c, f), f) == scaled_about_center(c, f) <==> f
            == 1real,
{
    let d = c - 1real / 2real;
    assert(scaled_about_center(c, f) - 1real / 2real == d * f);
    assert(scaled_about_center(scaled_about_center(c, f), f) == (d * f) * f + 1real / 2real);
    if f == 1real {
        assert((d * f) * f == d * f) by (nonlinear_arith)
            requires
                f == 1real,
        ;
    } else {
        assert((d * f) * f != d * f) by (nonlinear_arith)
            requires
                f > 1real,
                d != 0real,
        ;
    }
}

/// A position strictly inside the unit square is not masked.
pub proof fn lemma_inside_is_unmasked(u: real, v: real)
    requires
        0real < u < 1real,
        0real < v < 1real,
    ensures
        axis_mask(u) + axis_mask(v) == 0,
{
}

/// A position with a coordinate below zero or above one is masked.
pub proof fn lemma_outside_is_masked(u: real, v: real)
    requires
        u < 0real || u > 1real || v < 0real || v > 1real,
    ensures
        axis_mask(u) + axis_mask(v) > 0,
{
}

/// The mask of one coordinate is zero or one, and the blend factor counts the
/// axes on which the position has left the interior of the unit square.
pub proof fn lemma_mask_counts_axes(u: real, v: real)
    ensures
        axis_mask(u) == (if 0real < u < 1real { 0int } else { 1int }),
        0 <= axis_mask(u) + axis_mask(v) <= 2,
{
}

} // verus!
