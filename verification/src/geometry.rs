//! The geometry that is drawn: two triangles that cover clip space.

use vstd::prelude::*;
use crate::scalar::{Scalar, Vec2};

verus! {

/// How a list of vertices is assembled into primitives.
#[derive(Clone, Copy, Debug, PartialEq, Eq, Structural)]
pub enum PrimitiveMode {
    /// Every three vertices in a row form one triangle.
    Triangles,
}

/// The number of vertices of the full-screen quad.
pub const QUAD_VERTICES: usize = 6;

/// The corner of clip space with the whole coordinates `(x, y)`.
pub open spec fn corner(x: int, y: int) -> Vec2 {
    Vec2 { x: Scalar { num: x as i128, den: 1 }, y: Scalar { num: y as i128, den: 1 } }
}

/// The six vertices of the full-screen quad: the lower left triangle, then
/// the upper right one, both counter-clockwise.
pub open spec fn quad() -> Seq<Vec2> {
    seq![
        corner(-1, 1),
        corner(-1, -1),
        corner(1, -1),
        corner(1, -1),
        corner(1, 1),
        corner(-1, 1),
    ]
}

/// Twice the signed area of the triangle `a`, `b`, `p`: positive where `p`
/// lies to the left of the edge from `a` to `b`.
pub open spec fn edge(a: Vec2, b: Vec2, p: (real, real)) -> real {
    (b.x@ - a.x@) * (p.1 - a.y@) - (b.y@ - a.y@) * (p.0 - a.x@)
}

/// Whether the point `p` lies in the counter-clockwise triangle `a`, `b`, `c`,
/// its edges included.
pub open spec fn in_triangle(a: Vec2, b: Vec2, c: Vec2, p: (real, real)) -> bool {
    edge(a, b, p) >= 0real && edge(b, c, p) >= 0real && edge(c, a, p) >= 0real
}

/// The vertices of two triangles that together cover clip space.
pub fn full_screen_quad() -> (v: Vec<Vec2>)
    ensures
        v@ == quad(),
        v@.len() == QUAD_VERTICES,
        forall|i: int| 0 <= i < v@.len() ==> (#[trigger] v@[i]).wf(),
{
    let mut v: Vec<Vec2> = Vec::new();
    v.push(Vec2::from_ints(-1, 1));
    v.push(Vec2::from_ints(-1, -1));
    v.push(Vec2::from_ints(1, -1));
    v.push(Vec2::from_ints(1, -1));
    v.push(Vec2::from_ints(1, 1));
    v.push(Vec2::from_ints(-1, 1));
    proof {
        assert(v@ =~= quad());
    }
    v
}

/// The value of a whole corner coordinate.
proof fn lemma_corner_values(x: int, y: int)
    requires
        -1 <= x <= 1,
        -1 <= y <= 1,
    ensures
        corner(x, y).x@ == x as real,
        corner(x, y).y@ == y as real,
{
    crate::scalar::lemma_over_one(x as real);
    crate::scalar::lemma_over_one(y as real);
}

/// Every point of clip space lies in one of the quad's two triangles, and
/// every point of either triangle lies in clip space.
pub proof fn lemma_quad_covers_clip_space(p: (real, real))
    ensures
        (-1real <= p.0 <= 1real && -1real <= p.1 <= 1real) <==> (in_triangle(
            quad()[0],
            quad()[1],
            quad()[2],
            p,
        ) || in_triangle(quad()[3], quad()[4], quad()[5], p)),
{
    lemma_corner_values(-1, 1);
    lemma_corner_values(-1, -1);
    lemma_corner_values(1, -1);
    lemma_corner_values(1, 1);
    let x = p.0;
    let y = p.1;
    assert(edge(quad()[0], quad()[1], p) == 2real * (x + 1real)) by (nonlinear_arith)
        requires
            edge(quad()[0], quad()[1], p) == (-1real - -1real) * (y - 1real) - (-1real - 1real) * (x
                - -1real),
    ;
    assert(edge(quad()[1], quad()[2], p) == 2real * (y + 1real)) by (nonlinear_arith)
        requires
            edge(quad()[1], quad()[2], p) == (1real - -1real) * (y - -1real) - (-1real - -1real)
                * (x - -1real),
    ;
    assert(edge(quad()[2], quad()[0], p) == -2real * (x + y)) by (nonlinear_arith)
        requires
            edge(quad()[2], quad()[0], p) == (-1real - 1real) * (y - -1real) - (1real - -1real) * (x
                - 1real),
    ;
    assert(edge(quad()[3], quad()[4], p) == 2real * (1real - x)) by (nonlinear_arith)
        requires
            edge(quad()[3], quad()[4], p) == (1real - 1real) * (y - -1real) - (1real - -1real) * (x
                - 1real),
    ;
    assert(edge(quad()[4], quad()[5], p) == 2real * (1real - y)) by (nonlinear_arith)
        requires
            edge(quad()[4], quad()[5], p) == (-1real - 1real) * (y - 1real) - (1real - 1real) * (x
                - 1real),
    ;
    assert(edge(quad()[5], quad()[3], p) == 2real * (x + y)) by (nonlinear_arith)
        requires
            edge(quad()[5], quad()[3], p) == (1real - -1real) * (y - 1real) - (-1real - 1real) * (x
                - -1real),
    ;
}

} // verus!
