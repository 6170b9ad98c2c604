//! The triangle rasterizer.

use vstd::prelude::*;

use super::pixel::{shade_pixel, Fragment, RasterArguments, StencilState};
use super::rasterization::{
    cell_outcome, center, clipped, column_of, lemma_index_of_column_and_row, lemma_index_round_trip, pixel_of,
    row_of, tile_in_bounds,
};
use super::tiles::tile_contains;
use crate::attachments::{Blend, Coverage, Depth, FULL_COVERAGE};
use crate::framebuffer::Framebuffer;
use crate::geometry::coordinate::lemma_index_in_area;
use crate::geometry::{Coordinate, FaceWinding, Position, ScreenVertex};
use crate::numeric::interpolate::{lemma_weighted_mean_bounds, lemma_weighted_sum_bounds};
use crate::numeric::{Barycentric, Interpolate, Scalar, HALF_PIXEL, SUBPIXEL};

verus! {

/// The edge function of the directed edge from `p` to `q` at the point `s`:
/// twice the signed area of the triangle `(p, q, s)`.
pub open spec fn edge(px: int, py: int, qx: int, qy: int, sx: int, sy: int) -> int {
    (qx - px) * (sy - py) - (qy - py) * (sx - px)
}

/// Whether the directed edge from `p` to `q` is a top edge or a left edge of
/// a triangle that has a positive signed area: a horizontal edge that runs
/// to the right, or an edge that runs upwards.
pub open spec fn top_left(px: int, py: int, qx: int, qy: int) -> bool {
    (qy == py && qx > px) || qy < py
}

/// Twice the signed area of the triangle `(a, b, c)`: positive where the
/// vertices run clockwise on the screen.
pub open spec fn signed_area(a: Position, b: Position, c: Position) -> int {
    edge(a.x as int, a.y as int, b.x as int, b.y as int, c.x as int, c.y as int)
}

/// Whether a triangle of the given signed area is left out.
pub open spec fn culled(cull: Option<FaceWinding>, area: int) -> bool {
    match cull {
        Some(FaceWinding::Clockwise) => area > 0,
        Some(FaceWinding::CounterClockwise) => area < 0,
        None => false,
    }
}

/// The weight that the point `s` gives to the vertex opposite the edge from
/// `p` to `q` in a triangle of the given signed area, if the point lies on
/// the inner side of the edge.
///
/// A point on the edge itself lies on the inner side where the edge is a
/// top edge or a left edge of the triangle.
pub open spec fn edge_weight(p: Position, q: Position, sx: int, sy: int, area: int) -> Option<int> {
    let e = edge(p.x as int, p.y as int, q.x as int, q.y as int, sx, sy);
    if area > 0 {
        if e > 0 || (e == 0 && top_left(p.x as int, p.y as int, q.x as int, q.y as int)) {
            Some(e)
        } else {
            None
        }
    } else {
        if e < 0 || (e == 0 && top_left(q.x as int, q.y as int, p.x as int, p.y as int)) {
            Some(-e)
        } else {
            None
        }
    }
}

/// The weights of the vertices of the triangle `(a, b, c)` at the center of
/// the pixel `(x, y)`, if the triangle covers it.
///
/// A triangle without area covers nothing. Any other triangle covers the
/// pixels whose center lies inside it or on one of its top or left edges.
pub open spec fn triangle_weights(a: Position, b: Position, c: Position, x: int, y: int) -> Option<Barycentric> {
    let area = signed_area(a, b, c);
    if area == 0 {
        None
    } else {
        match (
            edge_weight(b, c, center(x), center(y), area),
            edge_weight(c, a, center(x), center(y), area),
            edge_weight(a, b, center(x), center(y), area),
        ) {
            (Some(u), Some(v), Some(w)) => Some(Barycentric { u: u as i128, v: v as i128, w: w as i128 }),
            _ => None,
        }
    }
}

/// The vertex that a triangle hands to the per-pixel stage at the pixel
/// `(x, y)` for the given weights: it lies at the center of the pixel, and
/// its depth, its `w` and its data are interpolated.
pub open spec fn triangle_vertex<K: Interpolate>(
    a: ScreenVertex<K>,
    b: ScreenVertex<K>,
    c: ScreenVertex<K>,
    weights: Barycentric,
    x: int,
    y: int,
) -> ScreenVertex<K> {
    ScreenVertex {
        position: Position {
            x: center(x) as Scalar,
            y: center(y) as Scalar,
            z: Scalar::spec_barycentric(weights, a.position.z, b.position.z, c.position.z),
            w: Scalar::spec_barycentric(weights, a.position.w, b.position.w, c.position.w),
        },
        uniforms: K::spec_barycentric(weights, a.uniforms, b.uniforms, c.uniforms),
    }
}

/// The fragment of the triangle `(a, b, c)` at the pixel `(x, y)`.
pub open spec fn triangle_fragment<K: Interpolate>(
    a: ScreenVertex<K>,
    b: ScreenVertex<K>,
    c: ScreenVertex<K>,
    cull: Option<FaceWinding>,
    x: int,
    y: int,
) -> Option<(ScreenVertex<K>, Coverage)> {
    if culled(cull, signed_area(a.position, b.position, c.position)) {
        None
    } else {
        match triangle_weights(a.position, b.position, c.position, x, y) {
            Some(weights) => Some((triangle_vertex(a, b, c, weights, x, y), FULL_COVERAGE)),
            None => None,
        }
    }
}


/// The largest magnitude of a coordinate that the edge function is computed on.
pub const COORDINATE_LIMIT: i128 = 0x400_0000_0000;

/// The product of two differences, multiplied out.
proof fn lemma_product_of_differences(a: int, b: int, c: int, d: int)
    ensures
        (a - b) * (c - d) == a * c - a * d - b * c + b * d,
{
    assert((a - b) * (c - d) == a * c - a * d - b * c + b * d) by (nonlinear_arith);
}

/// A product of three factors does not depend on their order.
proof fn lemma_product_of_three(a: int, b: int, c: int)
    ensures
        (a * b) * c == (a * c) * b,
        (a * b) * c == (b * c) * a,
        (a * b) * c == (c * b) * a,
        (a * b) * c == (b * a) * c,
        (a * b) * c == (c * a) * b,
{
    assert((a * b) * c == (a * c) * b) by (nonlinear_arith);
    assert((a * b) * c == (b * c) * a) by (nonlinear_arith);
    assert((a * b) * c == (c * b) * a) by (nonlinear_arith);
    assert((a * b) * c == (b * a) * c) by (nonlinear_arith);
    assert((a * b) * c == (c * a) * b) by (nonlinear_arith);
}

/// A difference of two products times a factor, multiplied out.
proof fn lemma_difference_times(p: int, q: int, f: int)
    ensures
        (p - q) * f == p * f - q * f,
        (p + q) * f == p * f + q * f,
        f * (p + q) == f * p + f * q,
{
    assert((p - q) * f == p * f - q * f) by (nonlinear_arith);
    assert((p + q) * f == p * f + q * f) by (nonlinear_arith);
    assert(f * (p + q) == f * p + f * q) by (nonlinear_arith);
}

/// The edge functions of a triangle with a vertex at the origin: `b`, `c`
/// and `s` are the offsets of the other two vertices and of the point from
/// that vertex.
proof fn lemma_edge_functions_at_origin(bx: int, by: int, cx: int, cy: int, sx: int, sy: int)
    ensures
        edge(bx, by, cx, cy, sx, sy) + edge(cx, cy, 0, 0, sx, sy) + edge(0, 0, bx, by, sx, sy) == edge(
            0,
            0,
            bx,
            by,
            cx,
            cy,
        ),
        edge(cx, cy, 0, 0, sx, sy) * bx + edge(0, 0, bx, by, sx, sy) * cx == edge(0, 0, bx, by, cx, cy) * sx,
        edge(cx, cy, 0, 0, sx, sy) * by + edge(0, 0, bx, by, sx, sy) * cy == edge(0, 0, bx, by, cx, cy) * sy,
{
    let ea = edge(bx, by, cx, cy, sx, sy);
    let eb = edge(cx, cy, 0, 0, sx, sy);
    let ec = edge(0, 0, bx, by, sx, sy);
    let area = edge(0, 0, bx, by, cx, cy);
    lemma_product_of_differences(cx, bx, sy, by);
    lemma_product_of_differences(cy, by, sx, bx);
    lemma_product_of_differences(0, cx, sy, cy);
    lemma_product_of_differences(0, cy, sx, cx);
    assert(bx * sy == sy * bx && by * sx == sx * by && cx * sy == sy * cx && cy * sx == sx * cy && bx * cy == cy
        * bx && by * cx == cx * by && cx * cy == cy * cx && bx * by == by * bx) by (nonlinear_arith);
    assert(0 * sy == 0 && 0 * cy == 0 && 0 * sx == 0 && 0 * cx == 0);
    assert(ec == bx * sy - by * sx);
    assert(area == bx * cy - by * cx);
    assert(eb == cy * sx - cx * sy);
    assert(ea + eb + ec == area);
    // The weighted sums, term by term.
    lemma_difference_times(cy * sx, cx * sy, bx);
    lemma_difference_times(bx * sy, by * sx, cx);
    lemma_difference_times(bx * cy, by * cx, sx);
    lemma_product_of_three(cy, sx, bx);
    lemma_product_of_three(cx, sy, bx);
    lemma_product_of_three(by, sx, cx);
    assert(eb * bx + ec * cx == area * sx);
    lemma_difference_times(cy * sx, cx * sy, by);
    lemma_difference_times(bx * sy, by * sx, cy);
    lemma_difference_times(bx * cy, by * cx, sy);
    lemma_product_of_three(cy, sx, by);
    lemma_product_of_three(cx, sy, by);
    lemma_product_of_three(bx, sy, cy);
    assert(eb * by + ec * cy == area * sy);
}

/// The edge functions of the three edges of a triangle at a point add up to
/// twice the signed area of the triangle, and they weigh the vertices so
/// that the weighted sum of the vertices is the point.
pub proof fn lemma_edge_functions(ax: int, ay: int, bx: int, by: int, cx: int, cy: int, sx: int, sy: int)
    ensures
        edge(bx, by, cx, cy, sx, sy) + edge(cx, cy, ax, ay, sx, sy) + edge(ax, ay, bx, by, sx, sy) == edge(
            ax,
            ay,
            bx,
            by,
            cx,
            cy,
        ),
        edge(bx, by, cx, cy, sx, sy) * ax + edge(cx, cy, ax, ay, sx, sy) * bx + edge(ax, ay, bx, by, sx, sy) * cx
            == edge(ax, ay, bx, by, cx, cy) * sx,
        edge(bx, by, cx, cy, sx, sy) * ay + edge(cx, cy, ax, ay, sx, sy) * by + edge(ax, ay, bx, by, sx, sy) * cy
            == edge(ax, ay, bx, by, cx, cy) * sy,
{
    let ea = edge(bx, by, cx, cy, sx, sy);
    let eb = edge(cx, cy, ax, ay, sx, sy);
    let ec = edge(ax, ay, bx, by, sx, sy);
    let area = edge(ax, ay, bx, by, cx, cy);
    lemma_edge_functions_at_origin(bx - ax, by - ay, cx - ax, cy - ay, sx - ax, sy - ay);
    assert(ea == edge(bx - ax, by - ay, cx - ax, cy - ay, sx - ax, sy - ay));
    assert(eb == edge(cx - ax, cy - ay, 0, 0, sx - ax, sy - ay));
    assert(ec == edge(0, 0, bx - ax, by - ay, sx - ax, sy - ay));
    assert(area == edge(0, 0, bx - ax, by - ay, cx - ax, cy - ay));
    assert(ea + eb + ec == area);
    lemma_difference_times(ea + eb, ec, ax);
    lemma_difference_times(ea, eb, ax);
    lemma_difference_times(ea + eb, ec, ay);
    lemma_difference_times(ea, eb, ay);
    lemma_difference_times(bx - ax, ax, eb);
    lemma_difference_times(cx - ax, ax, ec);
    lemma_difference_times(by - ay, ay, eb);
    lemma_difference_times(cy - ay, ay, ec);
    lemma_difference_times(sx - ax, ax, area);
    lemma_difference_times(sy - ay, ay, area);
    assert(eb * ax == ax * eb && ec * ax == ax * ec && eb * ay == ay * eb && ec * ay == ay * ec && area * ax == ax
        * area && area * ay == ay * area && eb * (bx - ax) == (bx - ax) * eb && ec * (cx - ax) == (cx - ax) * ec
        && eb * (by - ay) == (by - ay) * eb && ec * (cy - ay) == (cy - ay) * ec && area * (sx - ax) == (sx - ax)
        * area && area * (sy - ay) == (sy - ay) * area && eb * bx == bx * eb && ec * cx == cx * ec && eb * by == by
        * eb && ec * cy == cy * ec && area * sx == sx * area && area * sy == sy * area) by (nonlinear_arith);
}

/// The edge function of coordinates within the limit is small.
pub proof fn lemma_edge_bound(px: int, py: int, qx: int, qy: int, sx: int, sy: int, limit: int)
    requires
        0 <= limit,
        -limit <= px <= limit,
        -limit <= py <= limit,
        -limit <= qx <= limit,
        -limit <= qy <= limit,
        -limit <= sx <= limit,
        -limit <= sy <= limit,
    ensures
        -8 * (limit * limit) <= edge(px, py, qx, qy, sx, sy) <= 8 * (limit * limit),
        -4 * (limit * limit) <= (qx - px) * (sy - py) <= 4 * (limit * limit),
        -4 * (limit * limit) <= (qy - py) * (sx - px) <= 4 * (limit * limit),
{
    let double = 2 * limit;
    let square = limit * limit;
    lemma_product_bound(qx - px, sy - py, double);
    lemma_product_bound(qy - py, sx - px, double);
    assert(double * double == 4 * square) by (nonlinear_arith)
        requires
            double == 2 * limit,
            square == limit * limit,
    ;
}

/// The product of two numbers of a magnitude up to `limit` has a magnitude
/// up to the square of `limit`.
pub proof fn lemma_product_bound(a: int, b: int, limit: int)
    requires
        -limit <= a <= limit,
        -limit <= b <= limit,
    ensures
        -(limit * limit) <= a * b <= limit * limit,
{
    assert(-(limit * limit) <= a * b <= limit * limit) by (nonlinear_arith)
        requires
            -limit <= a <= limit,
            -limit <= b <= limit,
    ;
}

/// Computes the edge function of the edge from `p` to `q` at the point `s`.
fn edge_value(px: i128, py: i128, qx: i128, qy: i128, sx: i128, sy: i128) -> (e: i128)
    requires
        -COORDINATE_LIMIT <= px <= COORDINATE_LIMIT,
        -COORDINATE_LIMIT <= py <= COORDINATE_LIMIT,
        -COORDINATE_LIMIT <= qx <= COORDINATE_LIMIT,
        -COORDINATE_LIMIT <= qy <= COORDINATE_LIMIT,
        -COORDINATE_LIMIT <= sx <= COORDINATE_LIMIT,
        -COORDINATE_LIMIT <= sy <= COORDINATE_LIMIT,
    ensures
        e == edge(px as int, py as int, qx as int, qy as int, sx as int, sy as int),
{
    proof {
        lemma_edge_bound(
            px as int,
            py as int,
            qx as int,
            qy as int,
            sx as int,
            sy as int,
            COORDINATE_LIMIT as int,
        );
        assert(COORDINATE_LIMIT * COORDINATE_LIMIT == 0x10_0000_0000_0000_0000_0000) by (nonlinear_arith);
    }
    (qx - px) * (sy - py) - (qy - py) * (sx - px)
}

/// Computes the weight that the point `s` gives to the vertex opposite the
/// edge from `p` to `q`, if the point lies on the inner side of the edge.
fn edge_weight_at(p: &Position, q: &Position, sx: i128, sy: i128, area: i128) -> (r: Option<i128>)
    requires
        -COORDINATE_LIMIT <= sx <= COORDINATE_LIMIT,
        -COORDINATE_LIMIT <= sy <= COORDINATE_LIMIT,
    ensures
        match edge_weight(*p, *q, sx as int, sy as int, area as int) {
            Some(e) => r == Some(e as i128) && e == e as i128,
            None => r.is_none(),
        },
{
    let e = edge_value(p.x as i128, p.y as i128, q.x as i128, q.y as i128, sx, sy);
    proof {
        lemma_edge_bound(
            p.x as int,
            p.y as int,
            q.x as int,
            q.y as int,
            sx as int,
            sy as int,
            COORDINATE_LIMIT as int,
        );
        assert(COORDINATE_LIMIT * COORDINATE_LIMIT == 0x10_0000_0000_0000_0000_0000) by (nonlinear_arith);
    }
    if area > 0 {
        if e > 0 || (e == 0 && ((q.y == p.y && q.x > p.x) || q.y < p.y)) {
            Some(e)
        } else {
            None
        }
    } else {
        if e < 0 || (e == 0 && ((p.y == q.y && p.x > q.x) || p.y < q.y)) {
            Some(-e)
        } else {
            None
        }
    }
}

/// The smallest of three scalars.
pub open spec fn min3(a: int, b: int, c: int) -> int {
    if a <= b && a <= c {
        a
    } else if b <= c {
        b
    } else {
        c
    }
}

/// The largest of three scalars.
pub open spec fn max3(a: int, b: int, c: int) -> int {
    if a >= b && a >= c {
        a
    } else if b >= c {
        b
    } else {
        c
    }
}

/// The weights of a covered pixel are well-formed, and the center of the
/// pixel lies in the bounding box of the triangle.
pub proof fn lemma_covered_pixel(a: Position, b: Position, c: Position, x: int, y: int)
    requires
        triangle_weights(a, b, c, x, y).is_some(),
    ensures
        triangle_weights(a, b, c, x, y).unwrap().wf(),
        min3(a.x as int, b.x as int, c.x as int) <= center(x) <= max3(a.x as int, b.x as int, c.x as int),
        min3(a.y as int, b.y as int, c.y as int) <= center(y) <= max3(a.y as int, b.y as int, c.y as int),
{
    let area = signed_area(a, b, c);
    let sx = center(x);
    let sy = center(y);
    let u = edge_weight(b, c, sx, sy, area).unwrap();
    let v = edge_weight(c, a, sx, sy, area).unwrap();
    let w = edge_weight(a, b, sx, sy, area).unwrap();
    lemma_edge_functions(a.x as int, a.y as int, b.x as int, b.y as int, c.x as int, c.y as int, sx, sy);
    lemma_edge_bound(
        a.x as int,
        a.y as int,
        b.x as int,
        b.y as int,
        c.x as int,
        c.y as int,
        0x8000_0000,
    );
    let total = u + v + w;
    assert(0 < total);
    assert(total == area || total == -area);
    let low_x = min3(a.x as int, b.x as int, c.x as int);
    let high_x = max3(a.x as int, b.x as int, c.x as int);
    let low_y = min3(a.y as int, b.y as int, c.y as int);
    let high_y = max3(a.y as int, b.y as int, c.y as int);
    lemma_weighted_sum_bounds(u, v, w, a.x as int, b.x as int, c.x as int, low_x, high_x);
    lemma_weighted_sum_bounds(u, v, w, a.y as int, b.y as int, c.y as int, low_y, high_y);
    assert(u * a.x + v * b.x + w * c.x == total * sx) by (nonlinear_arith)
        requires
            edge(b.x as int, b.y as int, c.x as int, c.y as int, sx, sy) * a.x + edge(
                c.x as int,
                c.y as int,
                a.x as int,
                a.y as int,
                sx,
                sy,
            ) * b.x + edge(a.x as int, a.y as int, b.x as int, b.y as int, sx, sy) * c.x == area * sx,
            (total == area && u == edge(b.x as int, b.y as int, c.x as int, c.y as int, sx, sy) && v == edge(
                c.x as int,
                c.y as int,
                a.x as int,
                a.y as int,
                sx,
                sy,
            ) && w == edge(a.x as int, a.y as int, b.x as int, b.y as int, sx, sy)) || (total == -area && u
                == -edge(b.x as int, b.y as int, c.x as int, c.y as int, sx, sy) && v == -edge(
                c.x as int,
                c.y as int,
                a.x as int,
                a.y as int,
                sx,
                sy,
            ) && w == -edge(a.x as int, a.y as int, b.x as int, b.y as int, sx, sy)),
    ;
    assert(u * a.y + v * b.y + w * c.y == total * sy) by (nonlinear_arith)
        requires
            edge(b.x as int, b.y as int, c.x as int, c.y as int, sx, sy) * a.y + edge(
                c.x as int,
                c.y as int,
                a.x as int,
                a.y as int,
                sx,
                sy,
            ) * b.y + edge(a.x as int, a.y as int, b.x as int, b.y as int, sx, sy) * c.y == area * sy,
            (total == area && u == edge(b.x as int, b.y as int, c.x as int, c.y as int, sx, sy) && v == edge(
                c.x as int,
                c.y as int,
                a.x as int,
                a.y as int,
                sx,
                sy,
            ) && w == edge(a.x as int, a.y as int, b.x as int, b.y as int, sx, sy)) || (total == -area && u
                == -edge(b.x as int, b.y as int, c.x as int, c.y as int, sx, sy) && v == -edge(
                c.x as int,
                c.y as int,
                a.x as int,
                a.y as int,
                sx,
                sy,
            ) && w == -edge(a.x as int, a.y as int, b.x as int, b.y as int, sx, sy)),
    ;
    assert(low_x <= sx <= high_x) by (nonlinear_arith)
        requires
            0 < total,
            total * low_x <= total * sx <= total * high_x,
    ;
    assert(low_y <= sy <= high_y) by (nonlinear_arith)
        requires
            0 < total,
            total * low_y <= total * sy <= total * high_y,
    ;
    assert(0x8000_0000 * 0x8000_0000 == 0x4000_0000_0000_0000) by (nonlinear_arith);
}

/// Computes the fixed-point position of the center of a column or row of pixels.
fn center_of(pixel: u32) -> (c: i128)
    ensures
        c == center(pixel as int),
        0 <= c <= COORDINATE_LIMIT,
{
    pixel as i128 * (SUBPIXEL as i128) + (HALF_PIXEL as i128)
}

/// Computes twice the signed area of the triangle `(a, b, c)`.
fn signed_area_of(a: &Position, b: &Position, c: &Position) -> (area: i128)
    ensures
        area == signed_area(*a, *b, *c),
{
    edge_value(a.x as i128, a.y as i128, b.x as i128, b.y as i128, c.x as i128, c.y as i128)
}

/// Computes the weights of the vertices of a triangle of the signed area
/// `area` at the center of a pixel, if the triangle covers the pixel.
fn triangle_weights_at(a: &Position, b: &Position, c: &Position, area: i128, column: u32, row: u32) -> (r: Option<
    Barycentric,
>)
    requires
        area == signed_area(*a, *b, *c),
        area != 0,
    ensures
        r == triangle_weights(*a, *b, *c, column as int, row as int),
{
    let sx = center_of(column);
    let sy = center_of(row);
    match edge_weight_at(b, c, sx, sy, area) {
        None => None,
        Some(u) => match edge_weight_at(c, a, sx, sy, area) {
            None => None,
            Some(v) => match edge_weight_at(a, b, sx, sy, area) {
                None => None,
                Some(w) => Some(Barycentric { u, v, w }),
            },
        },
    }
}

/// Whether the type `D` has a depth value for the depth of each of the
/// three vertices.
pub open spec fn depths_representable<D: Depth, K>(a: ScreenVertex<K>, b: ScreenVertex<K>, c: ScreenVertex<K>) -> bool {
    &&& D::spec_from_scalar(a.position.z).is_some()
    &&& D::spec_from_scalar(b.position.z).is_some()
    &&& D::spec_from_scalar(c.position.z).is_some()
}

/// A depth interpolated between the depths of three vertices has a depth
/// value where the depths of the vertices have one.
pub proof fn lemma_interpolated_depth<D: Depth>(weights: Barycentric, a: Scalar, b: Scalar, c: Scalar)
    requires
        weights.wf(),
        D::spec_from_scalar(a).is_some(),
        D::spec_from_scalar(b).is_some(),
        D::spec_from_scalar(c).is_some(),
    ensures
        D::spec_from_scalar(Scalar::spec_barycentric(weights, a, b, c)).is_some(),
{
    let low = min3(a as int, b as int, c as int);
    let high = max3(a as int, b as int, c as int);
    lemma_weighted_mean_bounds(weights, a as int, b as int, c as int, low, high);
    D::lemma_representable_between(low as Scalar, high as Scalar, Scalar::spec_barycentric(weights, a, b, c));
}

/// Hands the pixel `(column, row)`, which the triangle covers with the
/// given weights, to the per-pixel stage.
fn shade_triangle_pixel<F, B, K, U, P>(
    args: &RasterArguments<F::Stencil>,
    framebuffer: &mut F,
    blend: &B,
    program: &P,
    uniforms: &U,
    a: &ScreenVertex<K>,
    b: &ScreenVertex<K>,
    c: &ScreenVertex<K>,
    weights: &Barycentric,
    column: u32,
    row: u32,
) where F: Framebuffer, B: Blend<F::Color>, K: Interpolate, P: Fn(&ScreenVertex<K>, &U) -> Fragment<F::Color>
    requires
        old(framebuffer).wf(),
        old(framebuffer).spec_dimensions() == args.dimensions,
        tile_in_bounds(*args),
        tile_contains(args.tile, column as int, row as int),
        forall|vertex: ScreenVertex<K>| call_requires(*program, (&vertex, uniforms)),
        depths_representable::<F::Depth, K>(*a, *b, *c),
        triangle_weights(a.position, b.position, c.position, column as int, row as int) == Some(*weights),
    ensures
        final(framebuffer).wf(),
        final(framebuffer).spec_dimensions() == old(framebuffer).spec_dimensions(),
        final(framebuffer).cells().len() == old(framebuffer).cells().len(),
        column + row * args.dimensions.width < old(framebuffer).cells().len(),
        forall|i: int|
            0 <= i < old(framebuffer).cells().len() && i != column + row * args.dimensions.width
                ==> #[trigger] final(framebuffer).cells()[i] == old(framebuffer).cells()[i],
        cell_outcome::<F, B, K, U, P>(
            old(framebuffer).cells()[column + row * args.dimensions.width],
            final(framebuffer).cells()[column + row * args.dimensions.width],
            Some((triangle_vertex(*a, *b, *c, *weights, column as int, row as int), FULL_COVERAGE)),
            args.stencil(),
            *blend,
            *program,
            *uniforms,
        ),
{
    proof {
        framebuffer.lemma_cells_len();
        lemma_index_in_area(column as int, row as int, args.dimensions.width as int, args.dimensions.height as int);
        lemma_covered_pixel(a.position, b.position, c.position, column as int, row as int);
        lemma_interpolated_depth::<F::Depth>(*weights, a.position.z, b.position.z, c.position.z);
    }
    let index = Coordinate::new(column, row).into_index(args.dimensions);
    let z = <Scalar as Interpolate>::barycentric_interpolate(weights, &a.position.z, &b.position.z, &c.position.z);
    let w = <Scalar as Interpolate>::barycentric_interpolate(weights, &a.position.w, &b.position.w, &c.position.w);
    let vertex = ScreenVertex {
        position: Position { x: center_of(column) as Scalar, y: center_of(row) as Scalar, z, w },
        uniforms: K::barycentric_interpolate(weights, &a.uniforms, &b.uniforms, &c.uniforms),
    };
    match F::Depth::from_scalar(z) {
        Ok(depth) => {
            shade_pixel(args, framebuffer, blend, program, uniforms, index, &vertex, depth, FULL_COVERAGE);
        },
        Err(_) => {},
    }
}

/// The smallest of three scalars.
fn smallest(a: Scalar, b: Scalar, c: Scalar) -> (m: Scalar)
    ensures
        m == min3(a as int, b as int, c as int),
{
    if a <= b && a <= c {
        a
    } else if b <= c {
        b
    } else {
        c
    }
}

/// The largest of three scalars.
fn largest(a: Scalar, b: Scalar, c: Scalar) -> (m: Scalar)
    ensures
        m == max3(a as int, b as int, c as int),
{
    if a >= b && a >= c {
        a
    } else if b >= c {
        b
    } else {
        c
    }
}

/// Where the scan of a tile starts for a primitive that reaches back to
/// the fixed-point position `low`: at the pixel in which `low` lies where
/// that pixel comes after the start `tile_min` of the tile, and at the
/// start of the tile otherwise.
pub open spec fn scan_start(tile_min: int, low: int) -> int {
    if low > 0 && pixel_of(low) > tile_min {
        pixel_of(low)
    } else {
        tile_min
    }
}

/// Where the scan of a tile ends for a primitive that reaches as far as
/// the fixed-point position `high`: after the pixel in which `high` lies
/// where that pixel comes before the end `tile_max` of the tile, and at
/// the end of the tile otherwise.
pub open spec fn scan_end(tile_max: int, high: int) -> int {
    if pixel_of(high) + 1 < tile_max {
        pixel_of(high) + 1
    } else {
        tile_max
    }
}

/// The first column or row of pixels of a tile whose center may lie at or
/// after the fixed-point position `low`.
fn first_pixel(tile_min: u32, low: Scalar) -> (first: u32)
    ensures
        first == scan_start(tile_min as int, low as int),
        first >= tile_min,
        forall|pixel: int| tile_min <= pixel && low <= center(pixel) ==> first <= pixel,
{
    if low <= 0 {
        tile_min
    } else {
        let pixel = (low / SUBPIXEL) as u32;
        if pixel > tile_min {
            pixel
        } else {
            tile_min
        }
    }
}

/// The end of the columns or rows of pixels of a tile whose center may lie
/// at or before the fixed-point position `high`, which is not negative.
fn end_pixel(tile_max: u32, high: Scalar) -> (end: u32)
    requires
        0 <= high,
    ensures
        end == scan_end(tile_max as int, high as int),
        end <= tile_max,
        forall|pixel: int| 0 <= pixel < tile_max && center(pixel) <= high ==> pixel < end,
{
    let pixel = (high / SUBPIXEL) as u32 + 1;
    if pixel < tile_max {
        pixel
    } else {
        tile_max
    }
}

/// Whether the scan of the columns `first_column..end_column` of the rows
/// from `first_row` on has passed the pixel `(x, y)` when it stands at the
/// pixel `(column, row)`.
pub open spec fn scanned(
    first_column: int,
    end_column: int,
    first_row: int,
    column: int,
    row: int,
    x: int,
    y: int,
) -> bool {
    first_column <= x < end_column && (first_row <= y < row || (y == row && x < column))
}

/// The state of a cell during the scan of a primitive: a cell that the
/// scan has passed holds the outcome of the primitive, any other cell is
/// as it was.
pub open spec fn scan_outcome<F: Framebuffer, B: Blend<F::Color>, K, U, P: Fn(&ScreenVertex<K>, &U) -> Fragment<F::Color>>(
    before: (F::Color, F::Depth, F::Stencil),
    after: (F::Color, F::Depth, F::Stencil),
    passed: bool,
    fragment: Option<(ScreenVertex<K>, Coverage)>,
    stencil: StencilState<F::Stencil>,
    blend: B,
    program: P,
    uniforms: U,
) -> bool {
    if passed {
        cell_outcome::<F, B, K, U, P>(before, after, fragment, stencil, blend, program, uniforms)
    } else {
        after == before
    }
}

/// Rasterizes a triangle: every pixel of the tile that the triangle covers
/// is visited once, with the vertex data interpolated at its center.
///
/// A triangle without area is skipped, and so is one whose winding is the
/// one that `args.cull_faces` names.
pub fn rasterize_triangle<F, B, K, U, P>(
    args: &RasterArguments<F::Stencil>,
    framebuffer: &mut F,
    blend: &B,
    program: &P,
    uniforms: &U,
    a: &ScreenVertex<K>,
    b: &ScreenVertex<K>,
    c: &ScreenVertex<K>,
) where F: Framebuffer, B: Blend<F::Color>, K: Interpolate, P: Fn(&ScreenVertex<K>, &U) -> Fragment<F::Color>
    requires
        old(framebuffer).wf(),
        old(framebuffer).spec_dimensions() == args.dimensions,
        tile_in_bounds(*args),
        forall|vertex: ScreenVertex<K>| call_requires(*program, (&vertex, uniforms)),
        depths_representable::<F::Depth, K>(*a, *b, *c),
    ensures
        final(framebuffer).wf(),
        final(framebuffer).spec_dimensions() == old(framebuffer).spec_dimensions(),
        final(framebuffer).cells().len() == old(framebuffer).cells().len(),
        forall|i: int|
            0 <= i < old(framebuffer).cells().len() ==> cell_outcome::<F, B, K, U, P>(
                old(framebuffer).cells()[i],
                #[trigger] final(framebuffer).cells()[i],
                clipped(
                    *args,
                    column_of(args.dimensions, i),
                    row_of(args.dimensions, i),
                    triangle_fragment(
                        *a,
                        *b,
                        *c,
                        args.cull_faces,
                        column_of(args.dimensions, i),
                        row_of(args.dimensions, i),
                    ),
                ),
                args.stencil(),
                *blend,
                *program,
                *uniforms,
            ),
{
    let area = signed_area_of(&a.position, &b.position, &c.position);
    if area == 0 {
        return ;
    }
    match args.cull_faces {
        Some(FaceWinding::Clockwise) => {
            if area > 0 {
                return ;
            }
        },
        Some(FaceWinding::CounterClockwise) => {
            if area < 0 {
                return ;
            }
        },
        None => {},
    }
    let low_x = smallest(a.position.x, b.position.x, c.position.x);
    let high_x = largest(a.position.x, b.position.x, c.position.x);
    let low_y = smallest(a.position.y, b.position.y, c.position.y);
    let high_y = largest(a.position.y, b.position.y, c.position.y);
    if high_x < 0 || high_y < 0 {
        proof {
            assert forall|i: int| 0 <= i < old(framebuffer).cells().len() implies clipped(
                *args,
                column_of(args.dimensions, i),
                row_of(args.dimensions, i),
                triangle_fragment(
                    *a,
                    *b,
                    *c,
                    args.cull_faces,
                    column_of(args.dimensions, i),
                    row_of(args.dimensions, i),
                ),
            ).is_none() by {
                let x = column_of(args.dimensions, i);
                let y = row_of(args.dimensions, i);
                if tile_contains(args.tile, x, y) && triangle_weights(a.position, b.position, c.position, x, y).is_some() {
                    lemma_covered_pixel(a.position, b.position, c.position, x, y);
                }
            }
        }
        return ;
    }
    let first_column = first_pixel(args.tile.min.x, low_x);
    let end_column = end_pixel(args.tile.max.x, high_x);
    let first_row = first_pixel(args.tile.min.y, low_y);
    let end_row = end_pixel(args.tile.max.y, high_y);
    let mut row = first_row;
    while row < end_row
        invariant
            framebuffer.wf(),
            framebuffer.spec_dimensions() == args.dimensions,
            framebuffer.cells().len() == old(framebuffer).cells().len(),
            tile_in_bounds(*args),
            forall|vertex: ScreenVertex<K>| call_requires(*program, (&vertex, uniforms)),
            depths_representable::<F::Depth, K>(*a, *b, *c),
            area == signed_area(a.position, b.position, c.position),
            area != 0,
            !culled(args.cull_faces, area as int),
            args.tile.min.x <= first_column,
            end_column <= args.tile.max.x,
            args.tile.min.y <= first_row <= row,
            end_row <= args.tile.max.y,
            forall|i: int|
                0 <= i < old(framebuffer).cells().len() ==> scan_outcome::<F, B, K, U, P>(
                    old(framebuffer).cells()[i],
                    #[trigger] framebuffer.cells()[i],
                    scanned(
                        first_column as int,
                        end_column as int,
                        first_row as int,
                        first_column as int,
                        row as int,
                        column_of(args.dimensions, i),
                        row_of(args.dimensions, i),
                    ),
                    clipped(
                        *args,
                        column_of(args.dimensions, i),
                        row_of(args.dimensions, i),
                        triangle_fragment(
                            *a,
                            *b,
                            *c,
                            args.cull_faces,
                            column_of(args.dimensions, i),
                            row_of(args.dimensions, i),
                        ),
                    ),
                    args.stencil(),
                    *blend,
                    *program,
                    *uniforms,
                ),
        decreases end_row - row,
    {
        let mut column = first_column;
        while column < end_column
            invariant
                framebuffer.wf(),
                framebuffer.spec_dimensions() == args.dimensions,
                framebuffer.cells().len() == old(framebuffer).cells().len(),
                tile_in_bounds(*args),
                forall|vertex: ScreenVertex<K>| call_requires(*program, (&vertex, uniforms)),
                depths_representable::<F::Depth, K>(*a, *b, *c),
                area == signed_area(a.position, b.position, c.position),
                area != 0,
                !culled(args.cull_faces, area as int),
                args.tile.min.x <= first_column <= column,
                end_column <= args.tile.max.x,
                args.tile.min.y <= first_row <= row < end_row,
                end_row <= args.tile.max.y,
                forall|i: int|
                    0 <= i < old(framebuffer).cells().len() ==> scan_outcome::<F, B, K, U, P>(
                        old(framebuffer).cells()[i],
                        #[trigger] framebuffer.cells()[i],
                        scanned(
                            first_column as int,
                            end_column as int,
                            first_row as int,
                            column as int,
                            row as int,
                            column_of(args.dimensions, i),
                            row_of(args.dimensions, i),
                        ),
                        clipped(
                            *args,
                            column_of(args.dimensions, i),
                            row_of(args.dimensions, i),
                            triangle_fragment(
                                *a,
                                *b,
                                *c,
                                args.cull_faces,
                                column_of(args.dimensions, i),
                                row_of(args.dimensions, i),
                            ),
                        ),
                        args.stencil(),
                        *blend,
                        *program,
                        *uniforms,
                    ),
            decreases end_column - column,
        {
            let ghost before = framebuffer.cells();
            let ghost index = column + row * args.dimensions.width;
            proof {
                lemma_index_round_trip(args.dimensions, column as int, row as int);
                assert forall|i: int| 0 <= i < old(framebuffer).cells().len() && i != index implies !(column_of(
                    args.dimensions,
                    i,
                ) == column && row_of(args.dimensions, i) == row) by {
                    lemma_index_of_column_and_row(args.dimensions, i);
                }
            }
            match triangle_weights_at(&a.position, &b.position, &c.position, area, column, row) {
                Some(weights) => {
                    shade_triangle_pixel(args, framebuffer, blend, program, uniforms, a, b, c, &weights, column, row);
                },
                None => {
                    proof {
                        framebuffer.lemma_cells_len();
                        lemma_index_in_area(
                            column as int,
                            row as int,
                            args.dimensions.width as int,
                            args.dimensions.height as int,
                        );
                    }
                },
            }
            column += 1;
        }
        row += 1;
    }
    proof {
        assert forall|i: int| 0 <= i < old(framebuffer).cells().len() implies cell_outcome::<F, B, K, U, P>(
            old(framebuffer).cells()[i],
            #[trigger] framebuffer.cells()[i],
            clipped(
                *args,
                column_of(args.dimensions, i),
                row_of(args.dimensions, i),
                triangle_fragment(
                    *a,
                    *b,
                    *c,
                    args.cull_faces,
                    column_of(args.dimensions, i),
                    row_of(args.dimensions, i),
                ),
            ),
            args.stencil(),
            *blend,
            *program,
            *uniforms,
        ) by {
            let x = column_of(args.dimensions, i);
            let y = row_of(args.dimensions, i);
            if tile_contains(args.tile, x, y) && triangle_weights(a.position, b.position, c.position, x, y).is_some() {
                lemma_covered_pixel(a.position, b.position, c.position, x, y);
            }
        }
    }
}

} // verus!
