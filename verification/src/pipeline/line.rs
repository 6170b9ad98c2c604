//! The line rasterizer.
//!
//! A line runs from the pixel of its start to the pixel of its end. It
//! takes one step per pixel along its major axis, the axis on which it
//! travels further. Without antialiasing every step visits the pixel
//! nearest to the line; with antialiasing every step visits the two pixels
//! that the line passes between, each with its share of the coverage.

use vstd::prelude::*;

use super::pixel::{shade_pixel, Fragment, RasterArguments};
use super::rasterization::{
    cell_outcome, center, clipped, column_of, lemma_index_of_column_and_row, lemma_index_round_trip, pixel_of,
    row_of, tile_in_bounds,
};
use super::tiles::tile_contains;
use super::triangle::scan_outcome;
use crate::attachments::{Blend, Coverage, Depth, FULL_COVERAGE};
use crate::framebuffer::Framebuffer;
use crate::geometry::coordinate::lemma_index_in_area;
use crate::geometry::{Coordinate, Position, ScreenVertex};
use crate::numeric::interpolate::{between, floor_div, lemma_between_bounds};
use crate::numeric::{Fraction, Interpolate, Scalar, HALF_PIXEL, SUBPIXEL};

verus! {

/// The pixel at `offset` pixels from `origin` towards `target`.
pub open spec fn towards(origin: int, target: int, offset: int) -> int {
    if target < origin {
        origin - offset
    } else {
        origin + offset
    }
}

/// How far the pixel `p` lies from `origin`, counted towards `target`.
pub open spec fn offset_towards(origin: int, target: int, p: int) -> int {
    if target < origin {
        origin - p
    } else {
        p - origin
    }
}

/// The length of a travel of `d` pixels.
pub open spec fn distance(d: int) -> int {
    if d < 0 {
        -d
    } else {
        d
    }
}

/// Whether the line from the pixel `(x0, y0)` to the pixel `(x1, y1)`
/// travels at least as far horizontally as vertically.
pub open spec fn x_major(x0: int, y0: int, x1: int, y1: int) -> bool {
    distance(x1 - x0) >= distance(y1 - y0)
}

/// The number of steps of the line: its travel along the major axis.
pub open spec fn line_steps(x0: int, y0: int, x1: int, y1: int) -> int {
    if x_major(x0, y0, x1, y1) {
        distance(x1 - x0)
    } else {
        distance(y1 - y0)
    }
}

/// The travel of the line along its minor axis.
pub open spec fn line_rise(x0: int, y0: int, x1: int, y1: int) -> int {
    if x_major(x0, y0, x1, y1) {
        distance(y1 - y0)
    } else {
        distance(x1 - x0)
    }
}

/// The step of the line at which it passes the column, or the row, of the
/// pixel `(x, y)`: the offset of the pixel from the start along the major
/// axis, in the direction of the line.
pub open spec fn step_at(x0: int, y0: int, x1: int, y1: int, x: int, y: int) -> int {
    if x_major(x0, y0, x1, y1) {
        offset_towards(x0, x1, x)
    } else {
        offset_towards(y0, y1, y)
    }
}

/// The offset of the pixel `(x, y)` from the start of the line along the
/// minor axis, in the direction of the line.
pub open spec fn rise_at(x0: int, y0: int, x1: int, y1: int, x: int, y: int) -> int {
    if x_major(x0, y0, x1, y1) {
        offset_towards(y0, y1, y)
    } else {
        offset_towards(x0, x1, x)
    }
}

/// How far a line of `steps` steps that rises by `rise` in all has risen
/// after `step` steps, rounded to the nearest pixel, halves upwards.
pub open spec fn nearest_rise(step: int, rise: int, steps: int) -> int {
    if steps == 0 {
        0
    } else {
        (2 * (step * rise) + steps) / (2 * steps)
    }
}

/// How far the line has risen after `step` steps, rounded down.
pub open spec fn lower_rise(step: int, rise: int, steps: int) -> int {
    if steps == 0 {
        0
    } else {
        (step * rise) / steps
    }
}

/// The coverage of the pixel above the line after `step` steps: the part of
/// a pixel by which the line has risen beyond `lower_rise`.
pub open spec fn upper_coverage(step: int, rise: int, steps: int) -> int {
    if steps == 0 {
        0
    } else {
        (FULL_COVERAGE * ((step * rise) % steps)) / steps
    }
}

/// The coverage of the pixel `(x, y)` by the line from the pixel `(x0, y0)`
/// to the pixel `(x1, y1)`, if the line visits the pixel.
pub open spec fn line_coverage(x0: int, y0: int, x1: int, y1: int, antialiased: bool, x: int, y: int) -> Option<
    Coverage,
> {
    let steps = line_steps(x0, y0, x1, y1);
    let rise = line_rise(x0, y0, x1, y1);
    let step = step_at(x0, y0, x1, y1, x, y);
    let risen = rise_at(x0, y0, x1, y1, x, y);
    if !(0 <= step <= steps) {
        None
    } else if antialiased {
        if risen == lower_rise(step, rise, steps) {
            Some((FULL_COVERAGE - upper_coverage(step, rise, steps)) as Coverage)
        } else if risen == lower_rise(step, rise, steps) + 1 && upper_coverage(step, rise, steps) > 0 {
            Some(upper_coverage(step, rise, steps) as Coverage)
        } else {
            None
        }
    } else {
        if risen == nearest_rise(step, rise, steps) {
            Some(FULL_COVERAGE)
        } else {
            None
        }
    }
}

/// The position along a line of `steps` steps after `step` of them.
pub open spec fn line_fraction(step: int, steps: int) -> Fraction {
    Fraction {
        numerator: step as i64,
        denominator: if steps == 0 {
            1
        } else {
            steps as i64
        },
    }
}

/// The vertex that a line hands to the per-pixel stage at the pixel
/// `(x, y)`, at the position `t` along the line: it lies at the center of
/// the pixel, and its depth, its `w` and its data are interpolated.
pub open spec fn line_vertex<K: Interpolate>(
    start: ScreenVertex<K>,
    end: ScreenVertex<K>,
    t: Fraction,
    x: int,
    y: int,
) -> ScreenVertex<K> {
    ScreenVertex {
        position: Position {
            x: center(x) as Scalar,
            y: center(y) as Scalar,
            z: Scalar::spec_linear(t, start.position.z, end.position.z),
            w: Scalar::spec_linear(t, start.position.w, end.position.w),
        },
        uniforms: K::spec_linear(t, start.uniforms, end.uniforms),
    }
}

/// The fragment of the line from `start` to `end` at the pixel `(x, y)`.
pub open spec fn line_fragment<K: Interpolate>(
    start: ScreenVertex<K>,
    end: ScreenVertex<K>,
    antialiased: bool,
    x: int,
    y: int,
) -> Option<(ScreenVertex<K>, Coverage)> {
    let x0 = pixel_of(start.position.x as int);
    let y0 = pixel_of(start.position.y as int);
    let x1 = pixel_of(end.position.x as int);
    let y1 = pixel_of(end.position.y as int);
    match line_coverage(x0, y0, x1, y1, antialiased, x, y) {
        Some(coverage) => Some(
            (
                line_vertex(
                    start,
                    end,
                    line_fraction(step_at(x0, y0, x1, y1, x, y), line_steps(x0, y0, x1, y1)),
                    x,
                    y,
                ),
                coverage,
            ),
        ),
        None => None,
    }
}

/// The largest magnitude of the column or row of a pixel in which a vertex lies.
pub const PIXEL_LIMIT: i64 = 0x80_0000;

/// Computes the column or row of pixels in which a fixed-point position lies.
fn pixel_index(p: Scalar) -> (pixel: i64)
    ensures
        pixel == pixel_of(p as int),
        -PIXEL_LIMIT <= pixel < PIXEL_LIMIT,
{
    floor_div(p as i128, SUBPIXEL as i128) as i64
}

/// Computes the fixed-point position of the center of a column or row of pixels.
fn center_scalar(pixel: i64) -> (c: Scalar)
    requires
        -PIXEL_LIMIT <= pixel < PIXEL_LIMIT,
    ensures
        c == center(pixel as int),
{
    assert(SUBPIXEL == 256 && HALF_PIXEL == 128 && PIXEL_LIMIT == 0x80_0000);
    (pixel * 256 + 128) as Scalar
}

/// A depth interpolated between the depths of two vertices has a depth
/// value where the depths of the vertices have one.
pub proof fn lemma_line_depth<D: Depth>(t: Fraction, a: Scalar, b: Scalar)
    requires
        t.wf(),
        D::spec_from_scalar(a).is_some(),
        D::spec_from_scalar(b).is_some(),
    ensures
        D::spec_from_scalar(Scalar::spec_linear(t, a, b)).is_some(),
{
    if a <= b {
        lemma_between_bounds(t, a as int, b as int, a as int, b as int);
        D::lemma_representable_between(a, b, Scalar::spec_linear(t, a, b));
    } else {
        lemma_between_bounds(t, a as int, b as int, b as int, a as int);
        D::lemma_representable_between(b, a, Scalar::spec_linear(t, a, b));
    }
}

/// Hands the pixel `(x, y)` at the position `t` of the line to the
/// per-pixel stage, if the pixel lies in the tile.
fn shade_line_pixel<F, B, K, U, P>(
    args: &RasterArguments<F::Stencil>,
    framebuffer: &mut F,
    blend: &B,
    program: &P,
    uniforms: &U,
    start: &ScreenVertex<K>,
    end: &ScreenVertex<K>,
    t: &Fraction,
    x: i64,
    y: i64,
    coverage: Coverage,
) where F: Framebuffer, B: Blend<F::Color>, K: Interpolate, P: Fn(&ScreenVertex<K>, &U) -> Fragment<F::Color>
    requires
        old(framebuffer).wf(),
        old(framebuffer).spec_dimensions() == args.dimensions,
        tile_in_bounds(*args),
        forall|vertex: ScreenVertex<K>| call_requires(*program, (&vertex, uniforms)),
        F::Depth::spec_from_scalar(start.position.z).is_some(),
        F::Depth::spec_from_scalar(end.position.z).is_some(),
        t.wf(),
        -PIXEL_LIMIT <= x < PIXEL_LIMIT,
        -PIXEL_LIMIT <= y < PIXEL_LIMIT,
    ensures
        final(framebuffer).wf(),
        final(framebuffer).spec_dimensions() == old(framebuffer).spec_dimensions(),
        final(framebuffer).cells().len() == old(framebuffer).cells().len(),
        !tile_contains(args.tile, x as int, y as int) ==> final(framebuffer).cells() == old(framebuffer).cells(),
        tile_contains(args.tile, x as int, y as int) ==> {
            &&& x + y * args.dimensions.width < old(framebuffer).cells().len()
            &&& forall|i: int|
                0 <= i < old(framebuffer).cells().len() && i != x + y * args.dimensions.width
                    ==> #[trigger] final(framebuffer).cells()[i] == old(framebuffer).cells()[i]
            &&& cell_outcome::<F, B, K, U, P>(
                old(framebuffer).cells()[x + y * args.dimensions.width],
                final(framebuffer).cells()[x + y * args.dimensions.width],
                Some((line_vertex(*start, *end, *t, x as int, y as int), coverage)),
                args.stencil(),
                *blend,
                *program,
                *uniforms,
            )
        },
{
    if x < args.tile.min.x as i64 || x >= args.tile.max.x as i64 || y < args.tile.min.y as i64 || y
        >= args.tile.max.y as i64 {
        return ;
    }
    let column = x as u32;
    let row = y as u32;
    proof {
        framebuffer.lemma_cells_len();
        lemma_index_in_area(column as int, row as int, args.dimensions.width as int, args.dimensions.height as int);
        lemma_line_depth::<F::Depth>(*t, start.position.z, end.position.z);
    }
    let index = Coordinate::new(column, row).into_index(args.dimensions);
    let z = <Scalar as Interpolate>::linear_interpolate(t, &start.position.z, &end.position.z);
    let w = <Scalar as Interpolate>::linear_interpolate(t, &start.position.w, &end.position.w);
    let vertex = ScreenVertex {
        position: Position {
            x: center_scalar(x),
            y: center_scalar(y),
            z,
            w,
        },
        uniforms: K::linear_interpolate(t, &start.uniforms, &end.uniforms),
    };
    match F::Depth::from_scalar(z) {
        Ok(depth) => {
            shade_pixel(args, framebuffer, blend, program, uniforms, index, &vertex, depth, coverage);
        },
        Err(_) => {},
    }
}

/// What the walk along a line keeps of the product `step * rise`: the
/// quotient `lower` and the remainder `rest` of its division by `steps`.
pub open spec fn walk_state(step: int, rise: int, steps: int, lower: int, rest: int) -> bool {
    &&& 0 <= rise <= steps
    &&& 0 <= step
    &&& 0 <= lower
    &&& lower * steps + rest == step * rise
    &&& 0 <= rest
    &&& steps > 0 ==> rest < steps
    &&& steps == 0 ==> rest == 0 && lower == 0
}

/// The state of the walk gives how far the line has risen, rounded down
/// and rounded to the nearest pixel, and bounds it by the rise of the line.
pub proof fn lemma_walk_state(step: int, rise: int, steps: int, lower: int, rest: int)
    requires
        walk_state(step, rise, steps, lower, rest),
        step <= steps,
    ensures
        lower == lower_rise(step, rise, steps),
        nearest_rise(step, rise, steps) == if steps > 0 && 2 * rest >= steps {
            lower + 1
        } else {
            lower
        },
        lower <= rise,
        rest > 0 ==> lower < rise,
        steps > 0 && 2 * rest >= steps ==> lower < rise,
        0 <= upper_coverage(step, rise, steps) < FULL_COVERAGE,
        upper_coverage(step, rise, steps) > 0 ==> rest > 0,
        steps > 0 ==> upper_coverage(step, rise, steps) == (FULL_COVERAGE * rest) / (steps as int),
{
    if steps > 0 {
        let product = step * rise;
        assert(steps * lower == lower * steps) by (nonlinear_arith);
        vstd::arithmetic::div_mod::lemma_fundamental_div_mod_converse(product, steps, lower, rest);
        assert(product <= steps * rise) by (nonlinear_arith)
            requires
                product == step * rise,
                0 <= step <= steps,
                0 <= rise,
        ;
        assert(lower <= rise && (rest > 0 ==> lower < rise)) by (nonlinear_arith)
            requires
                lower * steps + rest == product,
                product <= steps * rise,
                0 <= rest,
                0 < steps,
        ;
        assert((2 * steps) * lower == 2 * (lower * steps) && (2 * steps) * (lower + 1) == 2 * (lower * steps) + 2
            * steps) by (nonlinear_arith);
        if 2 * rest >= steps {
            vstd::arithmetic::div_mod::lemma_fundamental_div_mod_converse(
                2 * product + steps,
                2 * steps,
                lower + 1,
                2 * rest - steps,
            );
        } else {
            vstd::arithmetic::div_mod::lemma_fundamental_div_mod_converse(
                2 * product + steps,
                2 * steps,
                lower,
                2 * rest + steps,
            );
        }
        let scaled = FULL_COVERAGE * rest;
        vstd::arithmetic::div_mod::lemma_fundamental_div_mod(scaled, steps);
        vstd::arithmetic::div_mod::lemma_mod_bound(scaled, steps);
        vstd::arithmetic::div_mod::lemma_div_pos_is_pos(scaled, steps);
        let upper = scaled / steps;
        assert(upper < 255) by (nonlinear_arith)
            requires
                scaled == steps * upper + scaled % steps,
                0 <= scaled % steps,
                scaled == 255 * rest,
                rest < steps,
                0 < steps,
        ;
        if rest == 0 {
            assert(upper == 0) by (nonlinear_arith)
                requires
                    0 == steps * upper + scaled % steps,
                    0 <= scaled % steps,
                    0 <= upper,
                    0 < steps,
            ;
        }
    }
}

/// One more step of the walk: the remainder grows by the rise and gives a
/// pixel to the quotient when it reaches the number of steps.
pub proof fn lemma_walk_on(step: int, rise: int, steps: int, lower: int, rest: int)
    requires
        walk_state(step, rise, steps, lower, rest),
    ensures
        steps > 0 && rest + rise >= steps ==> walk_state(step + 1, rise, steps, lower + 1, rest + rise - steps),
        !(steps > 0 && rest + rise >= steps) ==> walk_state(step + 1, rise, steps, lower, rest + rise),
{
    assert((step + 1) * rise == step * rise + rise) by (nonlinear_arith);
    assert((lower + 1) * steps == lower * steps + steps) by (nonlinear_arith);
}

/// Moves `offset` pixels from `origin`, backwards or forwards.
fn travel(origin: i64, offset: i64, backwards: bool) -> (pixel: i64)
    requires
        -PIXEL_LIMIT <= origin < PIXEL_LIMIT,
        0 <= offset <= 2 * PIXEL_LIMIT,
    ensures
        pixel == if backwards {
            origin - offset
        } else {
            origin + offset
        },
{
    if backwards {
        origin - offset
    } else {
        origin + offset
    }
}

/// The pixels in which the two ends of a line lie.
struct LineEnds {
    /// The column of the pixel of the start.
    x0: i64,
    /// The row of the pixel of the start.
    y0: i64,
    /// The column of the pixel of the end.
    x1: i64,
    /// The row of the pixel of the end.
    y1: i64,
}

impl LineEnds {
    /// The ends are the pixels of the two vertices.
    spec fn of<K>(self, start: ScreenVertex<K>, end: ScreenVertex<K>) -> bool {
        &&& self.x0 == pixel_of(start.position.x as int)
        &&& self.y0 == pixel_of(start.position.y as int)
        &&& self.x1 == pixel_of(end.position.x as int)
        &&& self.y1 == pixel_of(end.position.y as int)
        &&& -PIXEL_LIMIT <= self.x0 < PIXEL_LIMIT
        &&& -PIXEL_LIMIT <= self.y0 < PIXEL_LIMIT
        &&& -PIXEL_LIMIT <= self.x1 < PIXEL_LIMIT
        &&& -PIXEL_LIMIT <= self.y1 < PIXEL_LIMIT
    }

    /// The step of the line at which it passes the pixel `(x, y)`.
    spec fn step_of(self, x: int, y: int) -> int {
        step_at(self.x0 as int, self.y0 as int, self.x1 as int, self.y1 as int, x, y)
    }

    /// The number of steps of the line.
    spec fn steps(self) -> int {
        line_steps(self.x0 as int, self.y0 as int, self.x1 as int, self.y1 as int)
    }

    /// The travel of the line along its minor axis.
    spec fn rise(self) -> int {
        line_rise(self.x0 as int, self.y0 as int, self.x1 as int, self.y1 as int)
    }
}

/// The pixels that one step of a line visits.
struct StepPixels {
    /// The column of the first pixel.
    x: i64,
    /// The row of the first pixel.
    y: i64,
    /// The coverage of the first pixel.
    coverage: Coverage,
    /// Whether the step visits a second pixel.
    two: bool,
    /// The column of the second pixel.
    x2: i64,
    /// The row of the second pixel.
    y2: i64,
    /// The coverage of the second pixel.
    coverage2: Coverage,
}

impl StepPixels {
    /// The coverage that the pixels of the step give to the pixel `(x, y)`.
    spec fn coverage_at(self, x: int, y: int) -> Option<Coverage> {
        if x == self.x && y == self.y {
            Some(self.coverage)
        } else if self.two && x == self.x2 && y == self.y2 {
            Some(self.coverage2)
        } else {
            None
        }
    }
}

/// Finds the pixels of one step of a line: the pixel nearest to the line
/// or, with antialiasing, the two pixels that the line passes between.
fn step_pixels(ends: &LineEnds, antialiased: bool, step: i64, lower: i64, rest: i64) -> (pixels: StepPixels)
    requires
        -PIXEL_LIMIT <= ends.x0 < PIXEL_LIMIT,
        -PIXEL_LIMIT <= ends.y0 < PIXEL_LIMIT,
        -PIXEL_LIMIT <= ends.x1 < PIXEL_LIMIT,
        -PIXEL_LIMIT <= ends.y1 < PIXEL_LIMIT,
        0 <= step <= ends.steps(),
        walk_state(step as int, ends.rise(), ends.steps(), lower as int, rest as int),
    ensures
        -PIXEL_LIMIT <= pixels.x < PIXEL_LIMIT,
        -PIXEL_LIMIT <= pixels.y < PIXEL_LIMIT,
        -PIXEL_LIMIT <= pixels.x2 < PIXEL_LIMIT,
        -PIXEL_LIMIT <= pixels.y2 < PIXEL_LIMIT,
        pixels.two ==> !(pixels.x2 == pixels.x && pixels.y2 == pixels.y),
        forall|x: int, y: int|
            ends.step_of(x, y) == step ==> #[trigger] line_coverage(
                ends.x0 as int,
                ends.y0 as int,
                ends.x1 as int,
                ends.y1 as int,
                antialiased,
                x,
                y,
            ) == pixels.coverage_at(x, y),
        ends.step_of(pixels.x as int, pixels.y as int) == step,
        pixels.two ==> ends.step_of(pixels.x2 as int, pixels.y2 as int) == step,
{
    let left = ends.x1 < ends.x0;
    let up = ends.y1 < ends.y0;
    let run: i64 = if left {
        ends.x0 - ends.x1
    } else {
        ends.x1 - ends.x0
    };
    let lift: i64 = if up {
        ends.y0 - ends.y1
    } else {
        ends.y1 - ends.y0
    };
    let horizontal = run >= lift;
    let steps: i64 = if horizontal {
        run
    } else {
        lift
    };
    proof {
        lemma_walk_state(step as int, ends.rise(), ends.steps(), lower as int, rest as int);
    }
    let risen: i64 = if !antialiased && steps > 0 && 2 * rest >= steps {
        lower + 1
    } else {
        lower
    };
    let upper: i64 = if antialiased && steps > 0 {
        (255 * rest) / steps
    } else {
        0
    };
    let two = upper > 0;
    let above: i64 = if two {
        risen + 1
    } else {
        risen
    };
    if horizontal {
        StepPixels {
            x: travel(ends.x0, step, left),
            y: travel(ends.y0, risen, up),
            coverage: (255 - upper) as u8,
            two,
            x2: travel(ends.x0, step, left),
            y2: travel(ends.y0, above, up),
            coverage2: upper as u8,
        }
    } else {
        StepPixels {
            x: travel(ends.x0, risen, left),
            y: travel(ends.y0, step, up),
            coverage: (255 - upper) as u8,
            two,
            x2: travel(ends.x0, above, left),
            y2: travel(ends.y0, step, up),
            coverage2: upper as u8,
        }
    }
}

/// Visits the pixels of one step of a line.
fn rasterize_line_step<F, B, K, U, P>(
    args: &RasterArguments<F::Stencil>,
    framebuffer: &mut F,
    blend: &B,
    program: &P,
    uniforms: &U,
    start: &ScreenVertex<K>,
    end: &ScreenVertex<K>,
    ends: &LineEnds,
    step: i64,
    lower: i64,
    rest: i64,
) where F: Framebuffer, B: Blend<F::Color>, K: Interpolate, P: Fn(&ScreenVertex<K>, &U) -> Fragment<F::Color>
    requires
        old(framebuffer).wf(),
        old(framebuffer).spec_dimensions() == args.dimensions,
        tile_in_bounds(*args),
        forall|vertex: ScreenVertex<K>| call_requires(*program, (&vertex, uniforms)),
        F::Depth::spec_from_scalar(start.position.z).is_some(),
        F::Depth::spec_from_scalar(end.position.z).is_some(),
        ends.of(*start, *end),
        0 <= step <= ends.steps(),
        walk_state(step as int, ends.rise(), ends.steps(), lower as int, rest as int),
    ensures
        final(framebuffer).wf(),
        final(framebuffer).spec_dimensions() == old(framebuffer).spec_dimensions(),
        final(framebuffer).cells().len() == old(framebuffer).cells().len(),
        forall|i: int|
            0 <= i < old(framebuffer).cells().len() ==> scan_outcome::<F, B, K, U, P>(
                old(framebuffer).cells()[i],
                #[trigger] final(framebuffer).cells()[i],
                ends.step_of(column_of(args.dimensions, i), row_of(args.dimensions, i)) == step,
                clipped(
                    *args,
                    column_of(args.dimensions, i),
                    row_of(args.dimensions, i),
                    line_fragment(
                        *start,
                        *end,
                        args.antialiased_lines,
                        column_of(args.dimensions, i),
                        row_of(args.dimensions, i),
                    ),
                ),
                args.stencil(),
                *blend,
                *program,
                *uniforms,
            ),
{
    let pixels = step_pixels(ends, args.antialiased_lines, step, lower, rest);
    let t = line_position(ends, step);
    shade_line_pixel(args, framebuffer, blend, program, uniforms, start, end, &t, pixels.x, pixels.y, pixels.coverage);
    let ghost middle = framebuffer.cells();
    if pixels.two {
        shade_line_pixel(
            args,
            framebuffer,
            blend,
            program,
            uniforms,
            start,
            end,
            &t,
            pixels.x2,
            pixels.y2,
            pixels.coverage2,
        );
    }
    proof {
        framebuffer.lemma_cells_len();
        if tile_contains(args.tile, pixels.x as int, pixels.y as int) {
            lemma_index_round_trip(args.dimensions, pixels.x as int, pixels.y as int);
        }
        if pixels.two && tile_contains(args.tile, pixels.x2 as int, pixels.y2 as int) {
            lemma_index_round_trip(args.dimensions, pixels.x2 as int, pixels.y2 as int);
        }
        assert forall|i: int| 0 <= i < old(framebuffer).cells().len() implies scan_outcome::<F, B, K, U, P>(
            old(framebuffer).cells()[i],
            #[trigger] framebuffer.cells()[i],
            ends.step_of(column_of(args.dimensions, i), row_of(args.dimensions, i)) == step,
            clipped(
                *args,
                column_of(args.dimensions, i),
                row_of(args.dimensions, i),
                line_fragment(
                    *start,
                    *end,
                    args.antialiased_lines,
                    column_of(args.dimensions, i),
                    row_of(args.dimensions, i),
                ),
            ),
            args.stencil(),
            *blend,
            *program,
            *uniforms,
        ) by {
            let column = column_of(args.dimensions, i);
            let row = row_of(args.dimensions, i);
            lemma_index_of_column_and_row(args.dimensions, i);
            lemma_step_fragment(*start, *end, *ends, pixels, args.antialiased_lines, step as int, t, column, row);
            if column == pixels.x && row == pixels.y {
                assert(i == pixels.x + pixels.y * args.dimensions.width);
                assert(middle[i] == framebuffer.cells()[i]);
            } else if pixels.two && column == pixels.x2 && row == pixels.y2 {
                assert(i == pixels.x2 + pixels.y2 * args.dimensions.width);
                assert(middle[i] == old(framebuffer).cells()[i]);
            } else {
                assert(middle[i] == old(framebuffer).cells()[i]);
                assert(framebuffer.cells()[i] == middle[i]);
            }
        }
    }
}

/// Computes the position along the line after `step` steps.
fn line_position(ends: &LineEnds, step: i64) -> (t: Fraction)
    requires
        -PIXEL_LIMIT <= ends.x0 < PIXEL_LIMIT,
        -PIXEL_LIMIT <= ends.y0 < PIXEL_LIMIT,
        -PIXEL_LIMIT <= ends.x1 < PIXEL_LIMIT,
        -PIXEL_LIMIT <= ends.y1 < PIXEL_LIMIT,
        0 <= step <= ends.steps(),
    ensures
        t == line_fraction(step as int, ends.steps()),
        t.wf(),
{
    let run: i64 = if ends.x1 < ends.x0 {
        ends.x0 - ends.x1
    } else {
        ends.x1 - ends.x0
    };
    let lift: i64 = if ends.y1 < ends.y0 {
        ends.y0 - ends.y1
    } else {
        ends.y1 - ends.y0
    };
    let steps: i64 = if run >= lift {
        run
    } else {
        lift
    };
    Fraction { numerator: step, denominator: if steps == 0 {
        1
    } else {
        steps
    } }
}

/// The fragment of a line at a pixel of the step `step`, given the pixels
/// that the step visits.
proof fn lemma_step_fragment<K: Interpolate>(
    start: ScreenVertex<K>,
    end: ScreenVertex<K>,
    ends: LineEnds,
    pixels: StepPixels,
    antialiased: bool,
    step: int,
    t: Fraction,
    x: int,
    y: int,
)
    requires
        ends.of(start, end),
        t == line_fraction(step, ends.steps()),
        forall|x: int, y: int|
            ends.step_of(x, y) == step ==> #[trigger] line_coverage(
                ends.x0 as int,
                ends.y0 as int,
                ends.x1 as int,
                ends.y1 as int,
                antialiased,
                x,
                y,
            ) == pixels.coverage_at(x, y),
    ensures
        ends.step_of(x, y) == step ==> line_fragment(start, end, antialiased, x, y) == match pixels.coverage_at(
            x,
            y,
        ) {
            Some(coverage) => Some((line_vertex(start, end, t, x, y), coverage)),
            None => None,
        },
{
    if ends.step_of(x, y) == step {
        assert(line_coverage(ends.x0 as int, ends.y0 as int, ends.x1 as int, ends.y1 as int, antialiased, x, y)
            == pixels.coverage_at(x, y));
    }
}

/// Rasterizes a line: every pixel of the tile that the line visits is
/// visited once, with the vertex data interpolated along the line.
pub fn rasterize_line<F, B, K, U, P>(
    args: &RasterArguments<F::Stencil>,
    framebuffer: &mut F,
    blend: &B,
    program: &P,
    uniforms: &U,
    start: &ScreenVertex<K>,
    end: &ScreenVertex<K>,
) where F: Framebuffer, B: Blend<F::Color>, K: Interpolate, P: Fn(&ScreenVertex<K>, &U) -> Fragment<F::Color>
    requires
        old(framebuffer).wf(),
        old(framebuffer).spec_dimensions() == args.dimensions,
        tile_in_bounds(*args),
        forall|vertex: ScreenVertex<K>| call_requires(*program, (&vertex, uniforms)),
        F::Depth::spec_from_scalar(start.position.z).is_some(),
        F::Depth::spec_from_scalar(end.position.z).is_some(),
    ensures
        final(framebuffer).wf(),
        final(framebuffer).spec_dimensions() == old(framebuffer).spec_dimensions(),
        final(framebuffer).cells().len() == old(framebuffer).cells().len(),
        forall|i: int|
            0 <= i < old(framebuffer).cells().len() ==> cell_outcome::<F, B, K, U, P>(
                old(framebuffer).cells()[i],
                #[trigger] final(framebuffer).cells()[i],
                clipped(
                    *args,
                    column_of(args.dimensions, i),
                    row_of(args.dimensions, i),
                    line_fragment(
                        *start,
                        *end,
                        args.antialiased_lines,
                        column_of(args.dimensions, i),
                        row_of(args.dimensions, i),
                    ),
                ),
                args.stencil(),
                *blend,
                *program,
                *uniforms,
            ),
{
    let ends = LineEnds {
        x0: pixel_index(start.position.x),
        y0: pixel_index(start.position.y),
        x1: pixel_index(end.position.x),
        y1: pixel_index(end.position.y),
    };
    let run: i64 = if ends.x1 < ends.x0 {
        ends.x0 - ends.x1
    } else {
        ends.x1 - ends.x0
    };
    let lift: i64 = if ends.y1 < ends.y0 {
        ends.y0 - ends.y1
    } else {
        ends.y1 - ends.y0
    };
    let steps: i64 = if run >= lift {
        run
    } else {
        lift
    };
    let rise: i64 = if run >= lift {
        lift
    } else {
        run
    };
    let mut step: i64 = 0;
    let mut lower: i64 = 0;
    let mut rest: i64 = 0;
    proof {
        assert(0 * steps + 0 == 0 * rise) by (nonlinear_arith);
    }
    while step <= steps
        invariant
            framebuffer.wf(),
            framebuffer.spec_dimensions() == args.dimensions,
            framebuffer.cells().len() == old(framebuffer).cells().len(),
            tile_in_bounds(*args),
            forall|vertex: ScreenVertex<K>| call_requires(*program, (&vertex, uniforms)),
            F::Depth::spec_from_scalar(start.position.z).is_some(),
            F::Depth::spec_from_scalar(end.position.z).is_some(),
            ends.of(*start, *end),
            steps == ends.steps(),
            rise == ends.rise(),
            0 <= step <= steps + 1,
            walk_state(step as int, rise as int, steps as int, lower as int, rest as int),
            forall|i: int|
                0 <= i < old(framebuffer).cells().len() ==> scan_outcome::<F, B, K, U, P>(
                    old(framebuffer).cells()[i],
                    #[trigger] framebuffer.cells()[i],
                    ends.step_of(column_of(args.dimensions, i), row_of(args.dimensions, i)) < step,
                    clipped(
                        *args,
                        column_of(args.dimensions, i),
                        row_of(args.dimensions, i),
                        line_fragment(
                            *start,
                            *end,
                            args.antialiased_lines,
                            column_of(args.dimensions, i),
                            row_of(args.dimensions, i),
                        ),
                    ),
                    args.stencil(),
                    *blend,
                    *program,
                    *uniforms,
                ),
        decreases steps + 1 - step,
    {
        let ghost before = framebuffer.cells();
        rasterize_line_step(args, framebuffer, blend, program, uniforms, start, end, &ends, step, lower, rest);
        proof {
            lemma_walk_state(step as int, rise as int, steps as int, lower as int, rest as int);
            lemma_walk_on(step as int, rise as int, steps as int, lower as int, rest as int);
            assert forall|i: int| 0 <= i < old(framebuffer).cells().len() implies scan_outcome::<F, B, K, U, P>(
                old(framebuffer).cells()[i],
                #[trigger] framebuffer.cells()[i],
                ends.step_of(column_of(args.dimensions, i), row_of(args.dimensions, i)) < step + 1,
                clipped(
                    *args,
                    column_of(args.dimensions, i),
                    row_of(args.dimensions, i),
                    line_fragment(
                        *start,
                        *end,
                        args.antialiased_lines,
                        column_of(args.dimensions, i),
                        row_of(args.dimensions, i),
                    ),
                ),
                args.stencil(),
                *blend,
                *program,
                *uniforms,
            ) by {
                assert(scan_outcome::<F, B, K, U, P>(
                    old(framebuffer).cells()[i],
                    before[i],
                    ends.step_of(column_of(args.dimensions, i), row_of(args.dimensions, i)) < step,
                    clipped(
                        *args,
                        column_of(args.dimensions, i),
                        row_of(args.dimensions, i),
                        line_fragment(
                            *start,
                            *end,
                            args.antialiased_lines,
                            column_of(args.dimensions, i),
                            row_of(args.dimensions, i),
                        ),
                    ),
                    args.stencil(),
                    *blend,
                    *program,
                    *uniforms,
                ));
            }
        }
        step += 1;
        rest += rise;
        if steps > 0 && rest >= steps {
            rest -= steps;
            lower += 1;
        }
    }
}

} // verus!
