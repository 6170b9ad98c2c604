//! Rasterization: which pixels of a tile a primitive visits, and what it
//! hands to the per-pixel stage there. This module holds what the
//! rasterizers share, and the rasterizer of points.

use vstd::prelude::*;

use super::pixel::{pixel_outcome, shade_pixel, Fragment, RasterArguments, StencilState};
use super::tiles::tile_contains;
use crate::attachments::{Blend, Coverage, Depth, FULL_COVERAGE};
use crate::framebuffer::Framebuffer;
use crate::geometry::coordinate::lemma_index_in_area;
use crate::geometry::{Coordinate, Dimensions, ScreenVertex};
use crate::numeric::{HALF_PIXEL, SUBPIXEL};

verus! {

/// The column or row of pixels in which the fixed-point position `p` lies.
pub open spec fn pixel_of(p: int) -> int {
    p / (SUBPIXEL as int)
}

/// The fixed-point position of the center of the pixels in column or row `pixel`.
pub open spec fn center(pixel: int) -> int {
    pixel * SUBPIXEL + HALF_PIXEL
}

/// The column of the pixel with the index `index` in a surface of the given dimensions.
pub open spec fn column_of(dimensions: Dimensions, index: int) -> int {
    index % (dimensions.width as int)
}

/// The row of the pixel with the index `index` in a surface of the given dimensions.
pub open spec fn row_of(dimensions: Dimensions, index: int) -> int {
    index / (dimensions.width as int)
}

/// Whether the tile of `args` lies within the dimensions of `args`.
pub open spec fn tile_in_bounds<S>(args: RasterArguments<S>) -> bool {
    args.tile.max.x <= args.dimensions.width && args.tile.max.y <= args.dimensions.height
}

/// The fragment of a primitive at a pixel, kept only where the pixel lies
/// in the tile.
pub open spec fn clipped<S, K>(
    args: RasterArguments<S>,
    x: int,
    y: int,
    fragment: Option<(ScreenVertex<K>, Coverage)>,
) -> Option<(ScreenVertex<K>, Coverage)> {
    if tile_contains(args.tile, x, y) {
        fragment
    } else {
        None
    }
}

/// Whether `after` is what a primitive may leave of the cell `before` of a
/// pixel: the outcome of the per-pixel stage where the primitive has a
/// fragment for the pixel, and `before` itself where it has none.
pub open spec fn cell_outcome<F: Framebuffer, B: Blend<F::Color>, K, U, P: Fn(&ScreenVertex<K>, &U) -> Fragment<F::Color>>(
    before: (F::Color, F::Depth, F::Stencil),
    after: (F::Color, F::Depth, F::Stencil),
    fragment: Option<(ScreenVertex<K>, Coverage)>,
    stencil: StencilState<F::Stencil>,
    blend: B,
    program: P,
    uniforms: U,
) -> bool {
    match fragment {
        Some((vertex, coverage)) => match F::Depth::spec_from_scalar(vertex.position.z) {
            Some(depth) => pixel_outcome(before, after, stencil, blend, program, uniforms, vertex, depth, coverage),
            None => after == before,
        },
        None => after == before,
    }
}

/// The fragment of a point at the pixel `(x, y)`: the vertex itself, at
/// full coverage, at the pixel in which the vertex lies.
pub open spec fn point_fragment<K>(point: ScreenVertex<K>, x: int, y: int) -> Option<(ScreenVertex<K>, Coverage)> {
    if x == pixel_of(point.position.x as int) && y == pixel_of(point.position.y as int) {
        Some((point, FULL_COVERAGE))
    } else {
        None
    }
}

/// The index of a pixel splits back into the column and the row of the pixel.
pub proof fn lemma_index_round_trip(dimensions: Dimensions, x: int, y: int)
    requires
        0 <= x < dimensions.width,
        0 <= y,
    ensures
        column_of(dimensions, x + y * dimensions.width) == x,
        row_of(dimensions, x + y * dimensions.width) == y,
{
    let width = dimensions.width as int;
    assert(width * y == y * width) by (nonlinear_arith);
    vstd::arithmetic::div_mod::lemma_fundamental_div_mod_converse(x + y * width, width, y, x);
}

/// An index is the index of the pixel in its column and its row.
pub proof fn lemma_index_of_column_and_row(dimensions: Dimensions, index: int)
    requires
        0 < dimensions.width,
    ensures
        index == column_of(dimensions, index) + row_of(dimensions, index) * dimensions.width,
{
    let width = dimensions.width as int;
    vstd::arithmetic::div_mod::lemma_fundamental_div_mod(index, width);
    assert(width * (index / width) == (index / width) * width) by (nonlinear_arith);
}

/// Rasterizes a point: the pixel in which the vertex lies is visited, if it
/// lies in the tile, with the vertex itself.
pub fn rasterize_point<F, B, K, U, P>(
    args: &RasterArguments<F::Stencil>,
    framebuffer: &mut F,
    blend: &B,
    program: &P,
    uniforms: &U,
    point: &ScreenVertex<K>,
) where F: Framebuffer, B: Blend<F::Color>, P: Fn(&ScreenVertex<K>, &U) -> Fragment<F::Color>
    requires
        old(framebuffer).wf(),
        old(framebuffer).spec_dimensions() == args.dimensions,
        tile_in_bounds(*args),
        forall|vertex: ScreenVertex<K>| call_requires(*program, (&vertex, uniforms)),
        F::Depth::spec_from_scalar(point.position.z).is_some(),
    ensures
        final(framebuffer).wf(),
        final(framebuffer).spec_dimensions() == old(framebuffer).spec_dimensions(),
        final(framebuffer).cells().len() == old(framebuffer).cells().len(),
        forall|i: int|
            0 <= i < old(framebuffer).cells().len() ==> cell_outcome::<F, B, K, U, P>(
                old(framebuffer).cells()[i],
                #[trigger] final(framebuffer).cells()[i],
                clipped(
                    *args,
                    column_of(args.dimensions, i),
                    row_of(args.dimensions, i),
                    point_fragment(*point, column_of(args.dimensions, i), row_of(args.dimensions, i)),
                ),
                args.stencil(),
                *blend,
                *program,
                *uniforms,
            ),
{
    let x = point.position.x;
    let y = point.position.y;
    if x < 0 || y < 0 {
        return ;
    }
    let column = (x / SUBPIXEL) as u32;
    let row = (y / SUBPIXEL) as u32;
    if args.tile.min.x <= column && column < args.tile.max.x && args.tile.min.y <= row && row < args.tile.max.y {
        proof {
            framebuffer.lemma_cells_len();
            lemma_index_in_area(
                column as int,
                row as int,
                args.dimensions.width as int,
                args.dimensions.height as int,
            );
            lemma_index_round_trip(args.dimensions, column as int, row as int);
        }
        let index = Coordinate::new(column, row).into_index(args.dimensions);
        match F::Depth::from_scalar(point.position.z) {
            Ok(depth) => {
                shade_pixel(args, framebuffer, blend, program, uniforms, index, point, depth, FULL_COVERAGE);
                proof {
                    assert forall|i: int| 0 <= i < old(framebuffer).cells().len() && i != index implies !(
                    column_of(args.dimensions, i) == column && row_of(args.dimensions, i) == row) by {
                        lemma_index_of_column_and_row(args.dimensions, i);
                    }
                }
            },
            Err(_) => {},
        }
    }
}

} // verus!
