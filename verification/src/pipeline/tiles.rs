//! The tile planner: the partition of the raster surface into the
//! rectangles that workers claim one at a time.

use vstd::prelude::*;

use crate::geometry::{Coordinate, Dimensions};

verus! {

/// The width and the height of the tiles that a fragment stage starts with.
pub const DEFAULT_TILE_EDGE: u32 = 128;

/// The tile size that a fragment stage starts with.
pub fn default_tile_size() -> (size: Dimensions)
    ensures
        size == (Dimensions { width: DEFAULT_TILE_EDGE, height: DEFAULT_TILE_EDGE }),
{
    Dimensions { width: DEFAULT_TILE_EDGE, height: DEFAULT_TILE_EDGE }
}

/// An axis-aligned rectangle of pixels: the pixels at or after `min` and
/// before `max` on both axes.
#[derive(Debug, Clone, Copy, PartialEq, Eq, Structural, Hash)]
pub struct Tile {
    /// The minimum corner, the first pixel of the tile.
    pub min: Coordinate,
    /// The maximum corner, which lies outside the tile.
    pub max: Coordinate,
}

/// The right bound of the rasterized surface: the last column of a surface
/// belongs to no tile.
pub open spec fn raster_width(dimensions: Dimensions) -> int {
    if dimensions.width == 0 {
        0
    } else {
        dimensions.width - 1
    }
}

/// The bottom bound of the rasterized surface: the last row of a surface
/// belongs to no tile.
pub open spec fn raster_height(dimensions: Dimensions) -> int {
    if dimensions.height == 0 {
        0
    } else {
        dimensions.height - 1
    }
}

/// Whether the pixel `(x, y)` belongs to the rasterized surface, the part of
/// the surface that the tiles cover.
pub open spec fn in_raster_surface(dimensions: Dimensions, x: int, y: int) -> bool {
    0 <= x < raster_width(dimensions) && 0 <= y < raster_height(dimensions)
}

/// How many pieces of length `step` it takes to cover `extent`.
pub open spec fn pieces(extent: int, step: int) -> int {
    (extent + step - 1) / step
}

/// The number of tiles in a row of tiles.
pub open spec fn tile_columns(dimensions: Dimensions, tile_size: Dimensions) -> int {
    pieces(raster_width(dimensions), tile_size.width as int)
}

/// The number of rows of tiles.
pub open spec fn tile_rows(dimensions: Dimensions, tile_size: Dimensions) -> int {
    pieces(raster_height(dimensions), tile_size.height as int)
}

/// The smaller of two integers.
pub open spec fn min_int(a: int, b: int) -> int {
    if a <= b {
        a
    } else {
        b
    }
}

/// The tile in column `column` and row `row` of the grid of tiles.
pub open spec fn tile_at(dimensions: Dimensions, tile_size: Dimensions, column: int, row: int) -> Tile {
    Tile {
        min: Coordinate { x: (column * tile_size.width) as u32, y: (row * tile_size.height) as u32 },
        max: Coordinate {
            x: min_int(column * tile_size.width + tile_size.width, raster_width(dimensions)) as u32,
            y: min_int(row * tile_size.height + tile_size.height, raster_height(dimensions)) as u32,
        },
    }
}

/// The tiles of a surface, row by row and from left to right in each row.
pub open spec fn spec_tiles(dimensions: Dimensions, tile_size: Dimensions) -> Seq<Tile> {
    let columns = tile_columns(dimensions, tile_size);
    Seq::new(
        (tile_rows(dimensions, tile_size) * columns) as nat,
        |k: int| tile_at(dimensions, tile_size, k % columns, k / columns),
    )
}

/// Whether the pixel `(x, y)` lies in `tile`: at or after its minimum
/// corner and before its maximum corner.
pub open spec fn tile_contains(tile: Tile, x: int, y: int) -> bool {
    tile.min.x <= x < tile.max.x && tile.min.y <= y < tile.max.y
}

/// Covering an extent takes no piece when the extent is empty, else the
/// least count of pieces that reaches its end.
pub proof fn lemma_pieces(extent: int, step: int)
    requires
        0 <= extent,
        0 < step,
    ensures
        0 <= pieces(extent, step),
        extent <= pieces(extent, step) * step < extent + step,
        forall|k: int| 0 <= k ==> (#[trigger] (k * step) < extent <==> k < pieces(extent, step)),
{
    let n = pieces(extent, step);
    vstd::arithmetic::div_mod::lemma_fundamental_div_mod(extent + step - 1, step);
    vstd::arithmetic::div_mod::lemma_mod_bound(extent + step - 1, step);
    assert(step * n == n * step) by (nonlinear_arith);
    assert(0 <= n) by (nonlinear_arith)
        requires
            n * step >= extent,
            0 <= extent,
            0 < step,
            n * step < extent + step,
    ;
    assert forall|k: int| 0 <= k implies (#[trigger] (k * step) < extent <==> k < n) by {
        if k < n {
            assert(k * step <= (n - 1) * step) by (nonlinear_arith)
                requires
                    k <= n - 1,
                    0 < step,
            ;
            assert((n - 1) * step == n * step - step) by (nonlinear_arith);
        } else {
            assert(k * step >= n * step) by (nonlinear_arith)
                requires
                    k >= n,
                    0 < step,
            ;
        }
    }
}

/// The position in the list of tiles of the tile in column `column` of row
/// `row` splits back into the column and the row.
proof fn lemma_tile_position(columns: int, column: int, row: int)
    requires
        0 <= column < columns,
        0 <= row,
    ensures
        (row * columns + column) % columns == column,
        (row * columns + column) / columns == row,
        (row + 1) * columns == row * columns + columns,
        0 <= row * columns,
{
    assert((row + 1) * columns == row * columns + columns) by (nonlinear_arith);
    assert(0 <= row * columns) by (nonlinear_arith)
        requires
            0 <= row,
            0 < columns,
    ;
    assert(columns * row == row * columns) by (nonlinear_arith);
    vstd::arithmetic::div_mod::lemma_fundamental_div_mod_converse(row * columns + column, columns, row, column);
}

/// The index in the list of tiles of the tile that holds the pixel `(x, y)`
/// of the rasterized surface.
pub open spec fn tile_index_of(dimensions: Dimensions, tile_size: Dimensions, x: int, y: int) -> int {
    (y / tile_size.height as int) * tile_columns(dimensions, tile_size) + x / tile_size.width as int
}

/// The piece `k` of an extent holds the position `p` exactly when `p` lies
/// in the extent and `k` is `p / step`.
proof fn lemma_piece_holds(extent: int, step: int, k: int, p: int)
    requires
        0 <= extent,
        0 < step,
        0 <= k < pieces(extent, step),
    ensures
        (k * step <= p < min_int(k * step + step, extent)) <==> (0 <= p < extent && k == p / step),
{
    lemma_pieces(extent, step);
    assert(k * step < extent);
    assert(0 <= k * step) by (nonlinear_arith)
        requires
            0 <= k,
            0 < step,
    ;
    assert(step * k == k * step) by (nonlinear_arith);
    if k * step <= p < min_int(k * step + step, extent) {
        vstd::arithmetic::div_mod::lemma_fundamental_div_mod_converse(p, step, k, p - k * step);
    }
    if 0 <= p < extent && k == p / step {
        vstd::arithmetic::div_mod::lemma_fundamental_div_mod(p, step);
        vstd::arithmetic::div_mod::lemma_mod_bound(p, step);
    }
}

/// A tile of the plan holds a pixel exactly when the pixel lies in the
/// rasterized surface and the tile is the one at the pixel's tile index.
pub proof fn lemma_tile_holds(dimensions: Dimensions, tile_size: Dimensions, k: int, x: int, y: int)
    requires
        tile_size.width > 0,
        tile_size.height > 0,
        0 <= k < spec_tiles(dimensions, tile_size).len(),
    ensures
        tile_contains(spec_tiles(dimensions, tile_size)[k], x, y) <==> (in_raster_surface(dimensions, x, y)
            && k == tile_index_of(dimensions, tile_size, x, y)),
{
    let columns = tile_columns(dimensions, tile_size);
    let rows = tile_rows(dimensions, tile_size);
    let width = tile_size.width as int;
    let height = tile_size.height as int;
    lemma_pieces(raster_width(dimensions), width);
    lemma_pieces(raster_height(dimensions), height);
    assert(0 < columns && 0 < rows) by (nonlinear_arith)
        requires
            0 <= columns,
            0 <= rows,
            0 <= k < rows * columns,
    ;
    let column = k % columns;
    let row = k / columns;
    vstd::arithmetic::div_mod::lemma_fundamental_div_mod(k, columns);
    vstd::arithmetic::div_mod::lemma_mod_bound(k, columns);
    vstd::arithmetic::div_mod::lemma_div_pos_is_pos(k, columns);
    assert(columns * row == row * columns) by (nonlinear_arith);
    assert(row < rows) by (nonlinear_arith)
        requires
            k == row * columns + column,
            0 <= column,
            k < rows * columns,
            0 < columns,
    ;
    lemma_piece_holds(raster_width(dimensions), width, column, x);
    lemma_piece_holds(raster_height(dimensions), height, row, y);
    assert(0 <= column * width < raster_width(dimensions) && 0 <= row * height < raster_height(dimensions))
        by (nonlinear_arith)
        requires
            0 <= column,
            0 <= row,
            0 < width,
            0 < height,
            column * width < raster_width(dimensions),
            row * height < raster_height(dimensions),
    ;
    if in_raster_surface(dimensions, x, y) && k == tile_index_of(dimensions, tile_size, x, y) {
        let c = x / width;
        let r = y / height;
        vstd::arithmetic::div_mod::lemma_fundamental_div_mod(x, width);
        vstd::arithmetic::div_mod::lemma_mod_bound(x, width);
        vstd::arithmetic::div_mod::lemma_div_pos_is_pos(x, width);
        vstd::arithmetic::div_mod::lemma_div_pos_is_pos(y, height);
        assert(width * c == c * width) by (nonlinear_arith);
        assert(c * width < raster_width(dimensions));
        assert(c < columns);
        lemma_tile_position(columns, c, r);
    }
    if tile_contains(spec_tiles(dimensions, tile_size)[k], x, y) {
        assert(k == row * columns + column);
    }
}

/// A tile of the plan lies within the rasterized surface.
pub proof fn lemma_tile_in_surface(dimensions: Dimensions, tile_size: Dimensions, k: int)
    requires
        tile_size.width > 0,
        tile_size.height > 0,
        0 <= k < spec_tiles(dimensions, tile_size).len(),
    ensures
        spec_tiles(dimensions, tile_size)[k].max.x <= raster_width(dimensions),
        spec_tiles(dimensions, tile_size)[k].max.y <= raster_height(dimensions),
        raster_width(dimensions) <= dimensions.width,
        raster_height(dimensions) <= dimensions.height,
{
    let columns = tile_columns(dimensions, tile_size);
    let rows = tile_rows(dimensions, tile_size);
    let width = tile_size.width as int;
    let height = tile_size.height as int;
    lemma_pieces(raster_width(dimensions), width);
    lemma_pieces(raster_height(dimensions), height);
    assert(0 < columns && 0 < rows) by (nonlinear_arith)
        requires
            0 <= columns,
            0 <= rows,
            0 <= k < rows * columns,
    ;
    let column = k % columns;
    let row = k / columns;
    vstd::arithmetic::div_mod::lemma_fundamental_div_mod(k, columns);
    vstd::arithmetic::div_mod::lemma_mod_bound(k, columns);
    vstd::arithmetic::div_mod::lemma_div_pos_is_pos(k, columns);
    assert(columns * row == row * columns) by (nonlinear_arith);
    assert(row < rows) by (nonlinear_arith)
        requires
            k == row * columns + column,
            0 <= column,
            k < rows * columns,
            0 < columns,
    ;
    assert(0 <= column * width && 0 <= row * height) by (nonlinear_arith)
        requires
            0 <= column,
            0 <= row,
            0 < width,
            0 < height,
    ;
}

/// The tiles partition the rasterized surface: a pixel lies in a tile
/// exactly when it lies in the rasterized surface, and no two tiles share a
/// pixel.
pub proof fn lemma_tiles_partition(dimensions: Dimensions, tile_size: Dimensions, x: int, y: int)
    requires
        tile_size.width > 0,
        tile_size.height > 0,
    ensures
        in_raster_surface(dimensions, x, y) <==> exists|k: int|
            0 <= k < spec_tiles(dimensions, tile_size).len() && tile_contains(
                #[trigger] spec_tiles(dimensions, tile_size)[k],
                x,
                y,
            ),
        forall|j: int, k: int|
            0 <= j < spec_tiles(dimensions, tile_size).len() && 0 <= k < spec_tiles(dimensions, tile_size).len()
                && tile_contains(#[trigger] spec_tiles(dimensions, tile_size)[j], x, y) && tile_contains(
                #[trigger] spec_tiles(dimensions, tile_size)[k],
                x,
                y,
            ) ==> j == k,
{
    let tiles = spec_tiles(dimensions, tile_size);
    assert forall|j: int, k: int|
        0 <= j < tiles.len() && 0 <= k < tiles.len() && tile_contains(#[trigger] tiles[j], x, y)
            && tile_contains(#[trigger] tiles[k], x, y) implies j == k by {
        lemma_tile_holds(dimensions, tile_size, j, x, y);
        lemma_tile_holds(dimensions, tile_size, k, x, y);
    }
    if in_raster_surface(dimensions, x, y) {
        let k = tile_index_of(dimensions, tile_size, x, y);
        lemma_tile_index_in_plan(dimensions, tile_size, x, y);
        lemma_tile_holds(dimensions, tile_size, k, x, y);
        assert(tile_contains(tiles[k], x, y));
    }
    if exists|k: int| 0 <= k < tiles.len() && tile_contains(#[trigger] tiles[k], x, y) {
        let k = choose|k: int| 0 <= k < tiles.len() && tile_contains(#[trigger] tiles[k], x, y);
        lemma_tile_holds(dimensions, tile_size, k, x, y);
    }
}

/// The tile index of a pixel of the rasterized surface is a position in the
/// list of tiles.
pub proof fn lemma_tile_index_in_plan(dimensions: Dimensions, tile_size: Dimensions, x: int, y: int)
    requires
        tile_size.width > 0,
        tile_size.height > 0,
        in_raster_surface(dimensions, x, y),
    ensures
        0 <= tile_index_of(dimensions, tile_size, x, y) < spec_tiles(dimensions, tile_size).len(),
{
    let columns = tile_columns(dimensions, tile_size);
    let rows = tile_rows(dimensions, tile_size);
    let width = tile_size.width as int;
    let height = tile_size.height as int;
    lemma_pieces(raster_width(dimensions), width);
    lemma_pieces(raster_height(dimensions), height);
    let c = x / width;
    let r = y / height;
    vstd::arithmetic::div_mod::lemma_fundamental_div_mod(x, width);
    vstd::arithmetic::div_mod::lemma_mod_bound(x, width);
    vstd::arithmetic::div_mod::lemma_div_pos_is_pos(x, width);
    vstd::arithmetic::div_mod::lemma_fundamental_div_mod(y, height);
    vstd::arithmetic::div_mod::lemma_mod_bound(y, height);
    vstd::arithmetic::div_mod::lemma_div_pos_is_pos(y, height);
    assert(width * c == c * width) by (nonlinear_arith);
    assert(height * r == r * height) by (nonlinear_arith);
    assert(c * width < raster_width(dimensions));
    assert(r * height < raster_height(dimensions));
    assert(c < columns);
    assert(r < rows);
    assert(0 <= r * columns + c < rows * columns) by (nonlinear_arith)
        requires
            0 <= c < columns,
            0 <= r < rows,
    ;
}

/// The end of the piece that starts at `start`: `step` further on, or at
/// `limit` where the piece would pass it.
fn piece_end(start: u32, step: u32, limit: u32) -> (end: u32)
    requires
        start < limit,
    ensures
        end == min_int(start + step, limit as int),
{
    if limit - start <= step {
        limit
    } else {
        start + step
    }
}

/// Partitions the rasterized surface of `dimensions` into tiles of at most
/// `tile_size`, listed row by row and from left to right in each row.
///
/// The last row and the last column of the surface belong to no tile, and a
/// surface without rows or columns has no tiles.
pub fn plan_tiles(dimensions: Dimensions, tile_size: Dimensions) -> (tiles: Vec<Tile>)
    requires
        tile_size.width > 0,
        tile_size.height > 0,
    ensures
        tiles@ == spec_tiles(dimensions, tile_size),
{
    let mut tiles: Vec<Tile> = Vec::new();
    let xmax: u32 = if dimensions.width == 0 {
        0
    } else {
        dimensions.width - 1
    };
    let ymax: u32 = if dimensions.height == 0 {
        0
    } else {
        dimensions.height - 1
    };
    let ghost columns = tile_columns(dimensions, tile_size);
    let ghost rows = tile_rows(dimensions, tile_size);
    let ghost mut row: int = 0;
    proof {
        lemma_pieces(xmax as int, tile_size.width as int);
        lemma_pieces(ymax as int, tile_size.height as int);
        assert(0 * tile_size.height == 0);
    }
    let mut y: u32 = 0;
    while y < ymax
        invariant
            tile_size.width > 0,
            tile_size.height > 0,
            xmax == raster_width(dimensions),
            ymax == raster_height(dimensions),
            columns == tile_columns(dimensions, tile_size),
            rows == tile_rows(dimensions, tile_size),
            0 <= columns,
            0 <= row <= rows,
            y == min_int(row * tile_size.height, ymax as int),
            tiles@.len() == row * columns,
            forall|k: int|
                0 <= k < tiles@.len() ==> #[trigger] tiles@[k] == tile_at(
                    dimensions,
                    tile_size,
                    k % columns,
                    k / columns,
                ),
        decreases ymax - y,
    {
        proof {
            lemma_pieces(xmax as int, tile_size.width as int);
            lemma_pieces(ymax as int, tile_size.height as int);
            assert(row * tile_size.height < ymax);
            assert(row < rows);
            assert((row + 1) * tile_size.height == row * tile_size.height + tile_size.height)
                by (nonlinear_arith);
            assert(0 * tile_size.width == 0);
        }
        let next_y = piece_end(y, tile_size.height, ymax);
        let ghost mut column: int = 0;
        let mut x: u32 = 0;
        while x < xmax
            invariant
                tile_size.width > 0,
                tile_size.height > 0,
                xmax == raster_width(dimensions),
                ymax == raster_height(dimensions),
                columns == tile_columns(dimensions, tile_size),
                0 <= row,
                0 <= column <= columns,
                y == row * tile_size.height,
                y < ymax,
                next_y == min_int(row * tile_size.height + tile_size.height, ymax as int),
                x == min_int(column * tile_size.width, xmax as int),
                tiles@.len() == row * columns + column,
                forall|k: int|
                    0 <= k < tiles@.len() ==> #[trigger] tiles@[k] == tile_at(
                        dimensions,
                        tile_size,
                        k % columns,
                        k / columns,
                    ),
            decreases xmax - x,
        {
            proof {
                lemma_pieces(xmax as int, tile_size.width as int);
                assert(column * tile_size.width < xmax);
                assert(column < columns);
                assert((column + 1) * tile_size.width == column * tile_size.width + tile_size.width)
                    by (nonlinear_arith);
                lemma_tile_position(columns, column, row);
            }
            let next_x = piece_end(x, tile_size.width, xmax);
            tiles.push(Tile { min: Coordinate::new(x, y), max: Coordinate::new(next_x, next_y) });
            x = next_x;
            proof {
                column = column + 1;
            }
        }
        proof {
            lemma_pieces(xmax as int, tile_size.width as int);
            if column < columns {
                assert(column * tile_size.width < xmax);
            }
            assert(column == columns);
            assert((row + 1) * columns == row * columns + columns) by (nonlinear_arith);
            row = row + 1;
        }
        y = next_y;
    }
    proof {
        lemma_pieces(ymax as int, tile_size.height as int);
        if row < rows {
            assert(row * tile_size.height < ymax);
        }
        assert(row == rows);
        assert(tiles@ =~= spec_tiles(dimensions, tile_size));
    }
    tiles
}

} // verus!
