//! Quad geometry: the vertex record emitted four times per glyph, its
//! mathematical model, the corner layout of a glyph's quad, the index pattern
//! of its two triangles, and the winding-order law.
//!
//! Positions are pixel coordinates in the anchor's local space; texture
//! coordinates are atlas pixel coordinates, left un-normalized here (the
//! layer that talks to the GPU divides them by the atlas dimensions). The
//! color and the world-anchor position are carried through untouched, so
//! their types are the caller's own.

use vstd::prelude::*;
use crate::glyph::GlyphMetric;

verus! {

/// One corner of a glyph quad. `world_position` is `Some` for world-anchored
/// text and `None` for screen-anchored text (whose anchor the GPU layer
/// zeroes); `screen_relative` is 0 for world-anchored and 1 for
/// screen-anchored quads.
pub struct Vertex<C, W> {
    pub position_x: i64,
    pub position_y: i64,
    pub tex_u: u64,
    pub tex_v: u64,
    pub world_position: Option<W>,
    pub screen_relative: i32,
    pub color: C,
}

/// The mathematical model of a [`Vertex`]: the same record over unbounded
/// integers.
pub ghost struct VertexModel<C, W> {
    pub position_x: int,
    pub position_y: int,
    pub tex_u: int,
    pub tex_v: int,
    pub world_position: Option<W>,
    pub screen_relative: int,
    pub color: C,
}

impl<C, W> View for Vertex<C, W> {
    type V = VertexModel<C, W>;

    open spec fn view(&self) -> VertexModel<C, W> {
        VertexModel {
            position_x: self.position_x as int,
            position_y: self.position_y as int,
            tex_u: self.tex_u as int,
            tex_v: self.tex_v as int,
            world_position: self.world_position,
            screen_relative: self.screen_relative as int,
            color: self.color,
        }
    }
}

/// Corner `k` of the quad for a glyph with metric `m`, drawn with the cursor
/// at pixel column `x` on pixel line `y`. Corners are numbered 0 top-left,
/// 1 bottom-left, 2 bottom-right, 3 top-right; the quad's top-left sits at
/// the cursor shifted by the glyph's drawing offsets, and its texture
/// rectangle is the glyph's atlas rectangle.
pub open spec fn quad_vertex<C, W>(
    m: GlyphMetric,
    x: int,
    y: int,
    world_position: Option<W>,
    screen_relative: int,
    color: C,
    k: int,
) -> VertexModel<C, W> {
    let left = x + m.xoffset;
    let top = y + m.yoffset;
    VertexModel {
        position_x: if k == 2 || k == 3 {
            left + m.width
        } else {
            left
        },
        position_y: if k == 1 || k == 2 {
            top + m.height
        } else {
            top
        },
        tex_u: if k == 2 || k == 3 {
            m.x + m.width
        } else {
            m.x as int
        },
        tex_v: if k == 1 || k == 2 {
            m.y + m.height
        } else {
            m.y as int
        },
        world_position,
        screen_relative,
        color,
    }
}

/// Which of a quad's four corners index entry `t` (of six) refers to: the
/// two triangles are (top-left, bottom-left, top-right) and (top-right,
/// bottom-left, bottom-right).
pub open spec fn quad_index_offset(t: int) -> int {
    if t == 0 {
        0
    } else if t == 1 {
        1
    } else if t == 2 {
        3
    } else if t == 3 {
        3
    } else if t == 4 {
        1
    } else {
        2
    }
}

/// Twice the signed area of the triangle (a, b, c), in raw coordinate
/// arithmetic. In the y-down pixel plane a triangle is counter-clockwise on
/// screen exactly when this is negative.
pub open spec fn doubled_signed_area(
    ax: int,
    ay: int,
    bx: int,
    by: int,
    cx: int,
    cy: int,
) -> int {
    (bx - ax) * (cy - ay) - (by - ay) * (cx - ax)
}

/// Whether the triangle (a, b, c) is counter-clockwise in the y-down pixel
/// plane.
pub open spec fn ccw_y_down(ax: int, ay: int, bx: int, by: int, cx: int, cy: int) -> bool {
    doubled_signed_area(ax, ay, bx, by, cx, cy) < 0
}

/// Winding order: for any glyph of positive width and height, both emitted
/// triangles — (top-left, bottom-left, top-right) and (top-right,
/// bottom-left, bottom-right) — are counter-clockwise in the glyph's local
/// y-down plane.
pub proof fn lemma_quad_winding<C, W>(
    m: GlyphMetric,
    x: int,
    y: int,
    world_position: Option<W>,
    screen_relative: int,
    color: C,
)
    requires
        m.width > 0,
        m.height > 0,
    ensures
        ({
            let v0 = quad_vertex(m, x, y, world_position, screen_relative, color, 0);
            let v1 = quad_vertex(m, x, y, world_position, screen_relative, color, 1);
            let v2 = quad_vertex(m, x, y, world_position, screen_relative, color, 2);
            let v3 = quad_vertex(m, x, y, world_position, screen_relative, color, 3);
            &&& ccw_y_down(
                v0.position_x,
                v0.position_y,
                v1.position_x,
                v1.position_y,
                v3.position_x,
                v3.position_y,
            )
            &&& ccw_y_down(
                v3.position_x,
                v3.position_y,
                v1.position_x,
                v1.position_y,
                v2.position_x,
                v2.position_y,
            )
        }),
{
    let w = m.width as int;
    let h = m.height as int;
    assert(h * w > 0) by (nonlinear_arith)
        requires
            h > 0,
            w > 0,
    ;
    let left = x + m.xoffset;
    let top = y + m.yoffset;
    assert(doubled_signed_area(left, top, left, top + h, left + w, top) == -(h * w))
        by (nonlinear_arith);
    assert(doubled_signed_area(left + w, top, left, top + h, left + w, top + h) == -(h * w))
        by (nonlinear_arith);
}

/// A glyph with the all-zero metric yields a zero-size quad pinned at the
/// cursor position, spanning no atlas pixels.
pub proof fn lemma_zero_metric_quad<C, W>(
    x: int,
    y: int,
    world_position: Option<W>,
    screen_relative: int,
    color: C,
)
    ensures
        forall|k: int|
            0 <= k < 4 ==> {
                let v = #[trigger] quad_vertex(
                    GlyphMetric::zero_spec(),
                    x,
                    y,
                    world_position,
                    screen_relative,
                    color,
                    k,
                );
                v.position_x == x && v.position_y == y && v.tex_u == 0 && v.tex_v == 0
            },
{
}

} // verus!
