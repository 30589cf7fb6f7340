//! A texture held as rows of RGBA pixels, and how it is sampled.
//!
//! Rows are stored top first. Sampling takes the texel that contains the
//! position and clamps positions outside the unit square to the nearest edge.

use vstd::prelude::*;
use crate::color::Color;
use crate::error::ResourceError;
use crate::scalar::{lemma_product_bound, lemma_real_of_product, Scalar, Vec2, SCALAR_MAX};

verus! {

/// The largest width or height of a texture, in texels.
pub const MAX_EXTENT: u32 = 65_535;

/// An image of `width` by `height` texels, four bytes each, top row first.
#[derive(Debug)]
pub struct TextureResource {
    width: u32,
    height: u32,
    pixels: Vec<u8>,
}

/// Whether `i` is the index of the texel that holds the coordinate `c` on an
/// axis of `n` texels: the whole part of `c * n`, and the nearest edge for a
/// coordinate outside the unit interval.
pub open spec fn is_texel_index(c: real, n: int, i: int) -> bool {
    if c <= 0real {
        i == 0
    } else if c >= 1real {
        i == n - 1
    } else {
        i as real <= c * (n as real) < (i + 1) as real
    }
}

/// The index of the texel that holds the coordinate `c` on an axis of `n`
/// texels.
pub open spec fn texel_index(c: real, n: int) -> int {
    choose|i: int| is_texel_index(c, n, i)
}

/// At most one index holds a coordinate.
pub proof fn lemma_texel_index_is_unique(c: real, n: int, i: int, j: int)
    requires
        is_texel_index(c, n, i),
        is_texel_index(c, n, j),
    ensures
        i == j,
{
    if 0real < c < 1real {
        let x = c * (n as real);
        assert(i as real <= x < (i + 1) as real);
        assert(j as real <= x < (j + 1) as real);
        assert(i < j + 1);
        assert(j < i + 1);
    }
}

/// An index that holds a coordinate is the coordinate's texel index.
pub proof fn lemma_texel_index_is(c: real, n: int, i: int)
    requires
        is_texel_index(c, n, i),
    ensures
        texel_index(c, n) == i,
{
    lemma_texel_index_is_unique(c, n, i, texel_index(c, n));
}

/// The index of the texel that holds `c` on an axis of `n` texels.
pub fn texel_index_of(c: Scalar, n: u32) -> (i: u32)
    requires
        c.wf(),
        n >= 1,
        c.magnitude() * n <= SCALAR_MAX,
    ensures
        is_texel_index(c@, n as int, i as int),
        i == texel_index(c@, n as int),
        i < n,
{
    let i: u32 = if c.at_most_zero() {
        0
    } else if c.at_least_one() {
        n - 1
    } else {
        proof {
            let a = c.num as real;
            let d = c.den as real;
            assert(a / d > 0real ==> a > 0real) by (nonlinear_arith)
                requires
                    d > 0real,
            ;
            assert(a / d < 1real ==> a < d) by (nonlinear_arith)
                requires
                    d > 0real,
            ;
            lemma_product_bound(c.num as int, n as int, c.magnitude(), n as int);
            assert(c.num * (n as i128) < c.den * (n as i128)) by (nonlinear_arith)
                requires
                    c.num < c.den,
                    n >= 1,
            ;
            assert(0 <= c.num * (n as i128)) by (nonlinear_arith)
                requires
                    0 <= c.num,
                    n >= 1,
            ;
        }
        let scaled: i128 = c.num * (n as i128);
        let q: i128 = scaled / c.den;
        proof {
            lemma_whole_part(scaled as int, c.den as int);
            assert(q < n) by (nonlinear_arith)
                requires
                    q * c.den <= scaled,
                    scaled < c.den * (n as i128),
                    0 < c.den,
            ;
            let a = c.num as real;
            let d = c.den as real;
            let m = n as real;
            lemma_real_of_product(c.num as int, n as int);
            lemma_real_of_product(q as int, c.den as int);
            lemma_real_of_product(q as int + 1, c.den as int);
            assert((q as real) <= (a / d) * m < ((q + 1) as real)) by (nonlinear_arith)
                requires
                    (q as real) * d <= a * m,
                    a * m < ((q + 1) as real) * d,
                    d > 0real,
            ;
        }
        q as u32
    };
    proof {
        lemma_texel_index_is(c@, n as int, i as int);
    }
    i
}

/// The whole part `q` of `a / d` satisfies `q * d <= a < (q + 1) * d`.
proof fn lemma_whole_part(a: int, d: int)
    requires
        0 <= a,
        0 < d,
    ensures
        0 <= a / d,
        (a / d) * d <= a < (a / d + 1) * d,
{
    vstd::arithmetic::div_mod::lemma_fundamental_div_mod(a, d);
    vstd::arithmetic::div_mod::lemma_mod_bound(a, d);
    vstd::arithmetic::div_mod::lemma_div_pos_is_pos(a, d);
    assert((a / d) * d == d * (a / d)) by (nonlinear_arith);
    assert((a / d + 1) * d == d * (a / d) + d) by (nonlinear_arith);
}

impl TextureResource {
    /// Both extents are between one and [`MAX_EXTENT`], and there are four
    /// bytes for each texel.
    pub closed spec fn wf(self) -> bool {
        &&& 1 <= self.width <= MAX_EXTENT
        &&& 1 <= self.height <= MAX_EXTENT
        &&& self.pixels@.len() == 4 * self.width * self.height
    }

    /// The width in texels.
    pub closed spec fn spec_width(self) -> int {
        self.width as int
    }

    /// The height in texels.
    pub closed spec fn spec_height(self) -> int {
        self.height as int
    }

    /// The bytes of all texels, row by row from the top.
    pub closed spec fn bytes(self) -> Seq<u8> {
        self.pixels@
    }

    /// The texel in column `col` of row `row`, rows counted from the top.
    pub open spec fn spec_texel(self, col: int, row: int) -> Color {
        let at = 4 * (row * self.spec_width() + col);
        Color {
            r: self.bytes()[at],
            g: self.bytes()[at + 1],
            b: self.bytes()[at + 2],
            a: self.bytes()[at + 3],
        }
    }

    /// The texel that a sampling position falls into, positions outside the
    /// unit square clamped to the nearest edge.
    pub open spec fn spec_sample(self, u: real, v: real) -> Color {
        self.spec_texel(texel_index(u, self.spec_width()), texel_index(v, self.spec_height()))
    }

    /// What a well-formed texture holds.
    pub proof fn lemma_wf(self)
        requires
            self.wf(),
        ensures
            1 <= self.spec_width() <= MAX_EXTENT,
            1 <= self.spec_height() <= MAX_EXTENT,
            self.bytes().len() == 4 * self.spec_width() * self.spec_height(),
    {
    }

    /// A texture of `width` by `height` texels over `pixels`. An extent of
    /// zero or above [`MAX_EXTENT`] is refused as `UploadFailed`; a byte count
    /// other than four per texel as `UnsupportedImageFormat`.
    pub fn new(width: u32, height: u32, pixels: Vec<u8>) -> (r: Result<
        TextureResource,
        ResourceError,
    >)
        ensures
            (width == 0 || height == 0 || width > MAX_EXTENT || height > MAX_EXTENT) ==> r == Err::<
                TextureResource,
                ResourceError,
            >(ResourceError::UploadFailed),
            (1 <= width <= MAX_EXTENT && 1 <= height <= MAX_EXTENT && pixels@.len() != 4 * width
                * height) ==> r == Err::<TextureResource, ResourceError>(
                ResourceError::UnsupportedImageFormat,
            ),
            (1 <= width <= MAX_EXTENT && 1 <= height <= MAX_EXTENT && pixels@.len() == 4 * width
                * height) ==> (r matches Ok(t) && t.wf() && t.spec_width() == width
                && t.spec_height() == height && t.bytes() == pixels@),
    {
        if width == 0 || height == 0 || width > MAX_EXTENT || height > MAX_EXTENT {
            return Err(ResourceError::UploadFailed);
        }
        proof {
            assert(4 * width * height <= 4 * 65_535 * 65_535) by (nonlinear_arith)
                requires
                    width <= 65_535,
                    height <= 65_535,
            ;
        }
        let expected: u64 = 4 * (width as u64) * (height as u64);
        if pixels.len() as u64 != expected {
            return Err(ResourceError::UnsupportedImageFormat);
        }
        Ok(TextureResource { width, height, pixels })
    }

    /// The width in texels.
    pub fn width(&self) -> (w: u32)
        ensures
            w == self.spec_width(),
    {
        self.width
    }

    /// The height in texels.
    pub fn height(&self) -> (h: u32)
        ensures
            h == self.spec_height(),
    {
        self.height
    }

    /// The bytes of all texels, row by row from the top.
    pub fn pixels(&self) -> (p: &Vec<u8>)
        ensures
            p@ == self.bytes(),
    {
        &self.pixels
    }

    /// The size in texels as a pair of whole numbers.
    pub fn size(&self) -> (r: Vec2)
        ensures
            r.wf(),
            r.x@ == self.spec_width() as real,
            r.y@ == self.spec_height() as real,
            r.x.num == self.spec_width(),
            r.x.den == 1,
            r.y.num == self.spec_height(),
            r.y.den == 1,
    {
        Vec2::from_ints(self.width as i64, self.height as i64)
    }

    /// The texel in column `col` of row `row`, rows counted from the top.
    pub fn texel(&self, col: u32, row: u32) -> (c: Color)
        requires
            self.wf(),
            col < self.spec_width(),
            row < self.spec_height(),
        ensures
            c == self.spec_texel(col as int, row as int),
    {
        let len = self.pixels.len();
        proof {
            assert(len == 4 * self.width * self.height);
            assert(4 * (row * self.width + col) + 3 < 4 * self.width * self.height)
                by (nonlinear_arith)
                requires
                    col < self.width,
                    row < self.height,
            ;
            assert(0 <= row * self.width <= self.width * self.height) by (nonlinear_arith)
                requires
                    0 <= row < self.height,
                    0 <= self.width,
            ;
        }
        let at: usize = 4 * (row as usize * self.width as usize + col as usize);
        Color {
            r: self.pixels[at],
            g: self.pixels[at + 1],
            b: self.pixels[at + 2],
            a: self.pixels[at + 3],
        }
    }

    /// Samples the texture at `uv`: the texel that contains the position, the
    /// position clamped to the nearest edge on each axis.
    pub fn sample(&self, uv: Vec2) -> (c: Color)
        requires
            self.wf(),
            uv.wf(),
            uv.magnitude() * MAX_EXTENT <= SCALAR_MAX,
        ensures
            c == self.spec_sample(uv.x@, uv.y@),
    {
        proof {
            lemma_product_bound(
                uv.x.magnitude(),
                self.width as int,
                uv.magnitude(),
                MAX_EXTENT as int,
            );
            lemma_product_bound(
                uv.y.magnitude(),
                self.height as int,
                uv.magnitude(),
                MAX_EXTENT as int,
            );
        }
        let col = texel_index_of(uv.x, self.width);
        let row = texel_index_of(uv.y, self.height);
        self.texel(col, row)
    }
}

} // verus!
