//! The two shader stages and the data they are parameterised by.
//!
//! The vertex stage places the corners of the full-screen quad. The fragment
//! stage gives each position of the window its colour: the texel of the
//! aspect-fitted texture, or the border colour outside the image.

use vstd::prelude::*;
use crate::color::{lemma_lerp_ends, lemma_lerp_saturates_at_border, Color};
use crate::scalar::{lemma_product_bound, Scalar, Vec2};
use crate::texture::{TextureResource, MAX_EXTENT};
use crate::transform::{
    aspect_ratio,
    axis_mask,
    blend_factor,
    flip_v,
    horizontal_scale,
    min_aspect,
    preserve_aspect_ratio,
    raised,
    real_max,
    scaled_about_center,
    unit_of_clip,
    uv,
    vertical_scale,
    MIN_ASPECT_DEN,
};

verus! {

/// The largest magnitude of a window extent that the fragment stage takes.
pub const WINDOW_LIMIT: i128 = 1_000_000;

/// The largest magnitude of a clip-space coordinate that the fragment stage
/// takes.
pub const CLIP_LIMIT: i128 = 2_097_152;

/// The block of values that is the same for every fragment of one draw call.
#[derive(Clone, Copy, Debug)]
pub struct App {
    pub window_size: Vec2,
}

/// What the stages read besides their per-vertex and per-fragment input: the
/// texture, sampled with both axes clamped to the edge, and the block.
#[derive(Debug)]
pub struct Uniforms {
    pub texture: TextureResource,
    pub app: App,
}

/// A point in homogeneous clip space.
#[derive(Clone, Copy, Debug)]
pub struct Vec4 {
    pub x: Scalar,
    pub y: Scalar,
    pub z: Scalar,
    pub w: Scalar,
}

/// What the vertex stage hands on: where the vertex lies, and the value that
/// is interpolated across the triangle for the fragment stage.
#[derive(Clone, Copy, Debug)]
pub struct VsOutput {
    pub clip_position: Vec4,
    pub interpolant: Vec2,
}

impl App {
    /// The block for a window of `width` by `height` pixels.
    pub open spec fn spec_for_window(width: u32, height: u32) -> App {
        App {
            window_size: Vec2 {
                x: Scalar { num: width as i128, den: 1 },
                y: Scalar { num: height as i128, den: 1 },
            },
        }
    }

    /// The block for a window of `width` by `height` pixels.
    #[verifier::when_used_as_spec(spec_for_window)]
    pub fn for_window(width: u32, height: u32) -> (r: App)
        ensures
            r == App::spec_for_window(width, height),
            r.window_size.wf(),
            r.window_size.x@ == width as real,
            r.window_size.y@ == height as real,
    {
        App { window_size: Vec2::from_ints(width as i64, height as i64) }
    }
}

impl Uniforms {
    /// The texture is well formed and the window's extents are fractions of
    /// magnitude at most [`WINDOW_LIMIT`].
    pub open spec fn wf(self) -> bool {
        &&& self.texture.wf()
        &&& self.app.window_size.wf()
        &&& self.app.window_size.magnitude() <= WINDOW_LIMIT
    }

    /// The aspect ratio of the window.
    pub open spec fn viewport_aspect(self) -> real {
        self.app.window_size.x@ / real_max(self.app.window_size.y@, min_aspect())
    }

    /// The aspect ratio of the texture.
    pub open spec fn texture_aspect(self) -> real {
        spec_texture_aspect_ratio(self.texture)
    }

    /// The horizontal sampling coordinate of a fragment at the clip-space
    /// abscissa `px`.
    pub open spec fn sampling_u(self, px: real) -> real {
        scaled_about_center(
            unit_of_clip(px),
            horizontal_scale(self.viewport_aspect(), self.texture_aspect()),
        )
    }

    /// The vertical sampling coordinate of a fragment at the clip-space
    /// ordinate `py`, counted from the top row of the texture.
    pub open spec fn sampling_v(self, py: real) -> real {
        1real - scaled_about_center(
            unit_of_clip(py),
            vertical_scale(self.viewport_aspect(), self.texture_aspect()),
        )
    }

    /// The factor by which the fragment at `(px, py)` is blended toward the
    /// border colour.
    pub open spec fn mask(self, px: real, py: real) -> int {
        axis_mask(self.sampling_u(px)) + axis_mask(self.sampling_v(py))
    }

    /// The colour of the fragment at the clip-space position `(px, py)`: the
    /// texture sampled at the fitted and flipped position, blended toward the
    /// border colour by the mask.
    pub open spec fn shade(self, px: real, py: real) -> Color {
        self.texture.spec_sample(self.sampling_u(px), self.sampling_v(py)).spec_lerp(
            Color::spec_border(),
            self.mask(px, py),
        )
    }
}

/// The aspect ratio of a texture: its width over its height in texels.
pub open spec fn spec_texture_aspect_ratio(texture: TextureResource) -> real {
    texture.spec_width() as real / real_max(texture.spec_height() as real, min_aspect())
}

/// The vertex stage: the vertex is placed where it stands, at depth zero, and
/// its position is handed on to be interpolated.
pub fn vertex_shader(globals: &Uniforms, vertex: Vec2) -> (r: VsOutput)
    ensures
        r.clip_position.x == vertex.x,
        r.clip_position.y == vertex.y,
        r.clip_position.z@ == 0real,
        r.clip_position.w@ == 1real,
        r.interpolant == vertex,
{
    VsOutput {
        clip_position: Vec4 { x: vertex.x, y: vertex.y, z: Scalar::zero(), w: Scalar::one() },
        interpolant: vertex,
    }
}

/// The aspect ratio of the texture behind a sampler.
pub fn texture_aspect_ratio(sampler: &TextureResource) -> (r: Scalar)
    requires
        sampler.wf(),
    ensures
        r.wf(),
        r@ == spec_texture_aspect_ratio(*sampler),
        r.magnitude() <= MIN_ASPECT_DEN * MIN_ASPECT_DEN,
{
    let size = sampler.size();
    proof {
        sampler.lemma_wf();
        lemma_product_bound(
            raised(size.x.magnitude()),
            raised(size.y.magnitude()),
            MIN_ASPECT_DEN as int,
            MIN_ASPECT_DEN as int,
        );
    }
    aspect_ratio(size)
}

/// The fragment stage: the colour of the window at a clip-space position.
///
/// The position is mapped to unit texture space, fitted to the texture's
/// aspect ratio, and flipped vertically; the texture is sampled there and the
/// sample is blended toward the border colour by the border mask.
pub fn fragment_shader(uniforms: &Uniforms, clip_space_pos: Vec2) -> (c: Color)
    requires
        uniforms.wf(),
        clip_space_pos.wf(),
        clip_space_pos.magnitude() <= CLIP_LIMIT,
    ensures
        c == uniforms.shade(clip_space_pos.x@, clip_space_pos.y@),
{
    let window_size = uniforms.app.window_size;
    let unit = uv(clip_space_pos);
    proof {
        lemma_product_bound(
            raised(window_size.x.magnitude()),
            raised(window_size.y.magnitude()),
            MIN_ASPECT_DEN as int,
            MIN_ASPECT_DEN as int,
        );
    }
    let viewport_aspect = aspect_ratio(window_size);
    let texture_aspect = texture_aspect_ratio(&uniforms.texture);
    let ghost limit = MIN_ASPECT_DEN * MIN_ASPECT_DEN;
    proof {
        lemma_product_bound(
            raised(viewport_aspect.magnitude()),
            raised(texture_aspect.magnitude()),
            limit,
            limit,
        );
        lemma_product_bound(
            unit.magnitude(),
            raised(viewport_aspect.magnitude()) * raised(texture_aspect.magnitude()),
            2 * CLIP_LIMIT,
            limit * limit,
        );
    }
    let fitted = preserve_aspect_ratio(viewport_aspect, texture_aspect, unit);
    let flipped = flip_v(fitted);
    proof {
        assert(flipped.magnitude() <= 2 * (16 * ((2 * CLIP_LIMIT) * (limit * limit))));
        assert(limit == 1_000_000_000_000);
        assert(limit * limit == 1_000_000_000_000_000_000_000_000) by (nonlinear_arith)
            requires
                limit == 1_000_000_000_000,
        ;
        lemma_product_bound(
            flipped.magnitude(),
            MAX_EXTENT as int,
            2 * (16 * ((2 * CLIP_LIMIT) * (limit * limit))),
            MAX_EXTENT as int,
        );
    }
    let color = uniforms.texture.sample(flipped);
    let factor = blend_factor(flipped);
    color.lerp(Color::border(), factor)
}

/// A fragment whose sampling position has left the interior of the unit
/// square has the border colour; every other one has the colour of its texel.
pub proof fn lemma_shade_is_texel_or_border(uniforms: Uniforms, px: real, py: real)
    ensures
        uniforms.mask(px, py) == 0 ==> uniforms.shade(px, py) == uniforms.texture.spec_sample(
            uniforms.sampling_u(px),
            uniforms.sampling_v(py),
        ),
        uniforms.mask(px, py) != 0 ==> uniforms.shade(px, py) == Color::spec_border(),
{
    let sample = uniforms.texture.spec_sample(uniforms.sampling_u(px), uniforms.sampling_v(py));
    lemma_lerp_ends(sample, Color::spec_border());
    if uniforms.mask(px, py) != 0 {
        lemma_lerp_saturates_at_border(sample, uniforms.mask(px, py));
    }
}

/// A clip-space coordinate `p`, fitted by the factor `f`, lies at
/// `(1 + p * f) / 2`; it is unmasked, before and after the flip, exactly where
/// `p * f` is strictly between minus one and one.
pub proof fn lemma_fitted_coordinate(p: real, f: real)
    ensures
        scaled_about_center(unit_of_clip(p), f) == (1real + p * f) / 2real,
        axis_mask(scaled_about_center(unit_of_clip(p), f)) == 0 <==> -1real < p * f < 1real,
        axis_mask(1real - scaled_about_center(unit_of_clip(p), f)) == 0 <==> -1real < p * f
            < 1real,
{
    assert((p / 2real + 1real / 2real - 1real / 2real) * f + 1real / 2real == (1real + p * f)
        / 2real) by (nonlinear_arith);
}

/// The footprint of the image: a fragment is unmasked exactly where both of
/// its clip-space coordinates, each times the scale factor of its axis, are
/// strictly between minus one and one.
pub proof fn lemma_image_footprint(uniforms: Uniforms, px: real, py: real)
    ensures
        uniforms.mask(px, py) == 0 <==> (-1real < px * horizontal_scale(
            uniforms.viewport_aspect(),
            uniforms.texture_aspect(),
        ) < 1real && -1real < py * vertical_scale(
            uniforms.viewport_aspect(),
            uniforms.texture_aspect(),
        ) < 1real),
{
    lemma_fitted_coordinate(
        px,
        horizontal_scale(uniforms.viewport_aspect(), uniforms.texture_aspect()),
    );
    lemma_fitted_coordinate(
        py,
        vertical_scale(uniforms.viewport_aspect(), uniforms.texture_aspect()),
    );
}

/// A texture twice as wide as high in a square window is letterboxed: the
/// fragments in the top and the bottom quarter of the window have the border
/// colour, and the band between them shows the texture over its full width,
/// its first row at the top of the band.
pub proof fn lemma_wide_texture_in_square_window(uniforms: Uniforms, px: real, py: real)
    requires
        uniforms.viewport_aspect() == 1real,
        uniforms.texture_aspect() == 2real,
    ensures
        (py > 1real / 2real || py < -1real / 2real) ==> uniforms.shade(px, py)
            == Color::spec_border(),
        (-1real / 2real < py < 1real / 2real && -1real < px < 1real) ==> uniforms.shade(px, py)
            == uniforms.texture.spec_sample(unit_of_clip(px), 1real / 2real - py),
{
    let h = horizontal_scale(uniforms.viewport_aspect(), uniforms.texture_aspect());
    let v = vertical_scale(uniforms.viewport_aspect(), uniforms.texture_aspect());
    assert(h == 1real);
    assert(2real / 1real == 2real) by (nonlinear_arith);
    assert(v == 2real);
    lemma_image_footprint(uniforms, px, py);
    lemma_shade_is_texel_or_border(uniforms, px, py);
    lemma_fitted_coordinate(px, h);
    lemma_fitted_coordinate(py, v);
    assert(px * 1real == px) by (nonlinear_arith);
    assert(uniforms.sampling_u(px) == unit_of_clip(px));
    assert(uniforms.sampling_v(py) == 1real / 2real - py);
}

} // verus!
