//! Streams of screen-space primitives and what rasterizing them in order
//! leaves in the cells of a framebuffer.

use vstd::prelude::*;

use super::line::{line_fragment, rasterize_line};
use super::pixel::{Fragment, RasterArguments};
use super::rasterization::{cell_outcome, clipped, column_of, point_fragment, rasterize_point, row_of, tile_in_bounds};
use super::tiles::tile_contains;
use super::triangle::{rasterize_triangle, triangle_fragment};
use crate::attachments::{Blend, Coverage, Depth};
use crate::framebuffer::Framebuffer;
use crate::geometry::{FaceWinding, ScreenVertex};
use crate::numeric::Interpolate;

verus! {

/// A primitive in screen space.
pub enum ScreenPrimitive<K> {
    /// A triangle, by its three corners.
    Triangle(ScreenVertex<K>, ScreenVertex<K>, ScreenVertex<K>),
    /// A line, by its start and its end.
    Line(ScreenVertex<K>, ScreenVertex<K>),
    /// A point.
    Point(ScreenVertex<K>),
}

/// The fragment of a primitive at the pixel `(x, y)`, if the primitive
/// visits the pixel.
pub open spec fn primitive_fragment<K: Interpolate>(
    primitive: ScreenPrimitive<K>,
    cull: Option<FaceWinding>,
    antialiased: bool,
    x: int,
    y: int,
) -> Option<(ScreenVertex<K>, Coverage)> {
    match primitive {
        ScreenPrimitive::Triangle(a, b, c) => triangle_fragment(a, b, c, cull, x, y),
        ScreenPrimitive::Line(start, end) => line_fragment(start, end, antialiased, x, y),
        ScreenPrimitive::Point(point) => point_fragment(point, x, y),
    }
}

/// The triangles that a sequence of vertices spells out, three vertices each.
pub open spec fn triangles_of<K>(vertices: Seq<ScreenVertex<K>>) -> Seq<ScreenPrimitive<K>> {
    Seq::new(
        (vertices.len() / 3) as nat,
        |j: int| ScreenPrimitive::Triangle(vertices[3 * j], vertices[3 * j + 1], vertices[3 * j + 2]),
    )
}

/// The lines that a sequence of vertices spells out, two vertices each.
pub open spec fn lines_of<K>(vertices: Seq<ScreenVertex<K>>) -> Seq<ScreenPrimitive<K>> {
    Seq::new((vertices.len() / 2) as nat, |j: int| ScreenPrimitive::Line(vertices[2 * j], vertices[2 * j + 1]))
}

/// The points that a sequence of vertices spells out.
pub open spec fn points_of<K>(vertices: Seq<ScreenVertex<K>>) -> Seq<ScreenPrimitive<K>> {
    Seq::new(vertices.len(), |j: int| ScreenPrimitive::Point(vertices[j]))
}

/// The vertices that a list of indices picks, in the order of the indices;
/// all the vertices in their own order where there are no indices.
pub open spec fn selected<K>(vertices: Seq<ScreenVertex<K>>, indices: Option<Seq<u32>>) -> Seq<ScreenVertex<K>> {
    match indices {
        Some(indices) => Seq::new(indices.len(), |j: int| vertices[indices[j] as int]),
        None => vertices,
    }
}

/// Whether every index is below `count`.
pub open spec fn indices_below(indices: Seq<u32>, count: int) -> bool {
    forall|j: int| 0 <= j < indices.len() ==> (#[trigger] indices[j]) < count
}

/// Whether every index names a vertex.
pub open spec fn indices_in_range<K>(vertices: Seq<ScreenVertex<K>>, indices: Option<Seq<u32>>) -> bool {
    match indices {
        Some(indices) => indices_below(indices, vertices.len() as int),
        None => true,
    }
}

/// Whether the depth type `D` has a value for the depth of every vertex.
pub open spec fn depths_in_range<D: Depth, K>(vertices: Seq<ScreenVertex<K>>) -> bool {
    forall|j: int| 0 <= j < vertices.len() ==> (#[trigger] D::spec_from_scalar(vertices[j].position.z)).is_some()
}

/// Whether `after` is what one primitive may leave of the cell `before` of
/// the pixel `(x, y)` when it is rasterized under `args`.
pub open spec fn step_outcome<F: Framebuffer, B: Blend<F::Color>, K: Interpolate, U, P: Fn(&ScreenVertex<K>, &U) -> Fragment<F::Color>>(
    before: (F::Color, F::Depth, F::Stencil),
    after: (F::Color, F::Depth, F::Stencil),
    primitive: ScreenPrimitive<K>,
    args: RasterArguments<F::Stencil>,
    x: int,
    y: int,
    blend: B,
    program: P,
    uniforms: U,
) -> bool {
    cell_outcome::<F, B, K, U, P>(
        before,
        after,
        clipped(args, x, y, primitive_fragment(primitive, args.cull_faces, args.antialiased_lines, x, y)),
        args.stencil(),
        blend,
        program,
        uniforms,
    )
}

/// Whether `after` is what the first `n` primitives of `stream` may leave
/// of the cell `before` of the pixel `(x, y)` when they are rasterized one
/// after the other under `args`.
pub open spec fn rendered<F: Framebuffer, B: Blend<F::Color>, K: Interpolate, U, P: Fn(&ScreenVertex<K>, &U) -> Fragment<F::Color>>(
    stream: Seq<ScreenPrimitive<K>>,
    n: nat,
    args: RasterArguments<F::Stencil>,
    x: int,
    y: int,
    before: (F::Color, F::Depth, F::Stencil),
    after: (F::Color, F::Depth, F::Stencil),
    blend: B,
    program: P,
    uniforms: U,
) -> bool
    decreases n,
{
    if n == 0 {
        after == before
    } else {
        exists|middle: (F::Color, F::Depth, F::Stencil)|
            rendered::<F, B, K, U, P>(
                stream,
                (n - 1) as nat,
                args,
                x,
                y,
                before,
                middle,
                blend,
                program,
                uniforms,
            ) && #[trigger] step_outcome::<F, B, K, U, P>(
                middle,
                after,
                stream[n - 1],
                args,
                x,
                y,
                blend,
                program,
                uniforms,
            )
    }
}

/// One more primitive: what the first `n` primitives leave, followed by
/// what the next one leaves, is what the first `n + 1` primitives leave.
pub proof fn lemma_rendered_next<F: Framebuffer, B: Blend<F::Color>, K: Interpolate, U, P: Fn(&ScreenVertex<K>, &U) -> Fragment<F::Color>>(
    stream: Seq<ScreenPrimitive<K>>,
    n: nat,
    args: RasterArguments<F::Stencil>,
    x: int,
    y: int,
    before: (F::Color, F::Depth, F::Stencil),
    middle: (F::Color, F::Depth, F::Stencil),
    after: (F::Color, F::Depth, F::Stencil),
    blend: B,
    program: P,
    uniforms: U,
)
    requires
        rendered::<F, B, K, U, P>(stream, n, args, x, y, before, middle, blend, program, uniforms),
        step_outcome::<F, B, K, U, P>(middle, after, stream[n as int], args, x, y, blend, program, uniforms),
    ensures
        rendered::<F, B, K, U, P>(stream, n + 1, args, x, y, before, after, blend, program, uniforms),
{
    let m = n + 1;
    assert((m - 1) as nat == n);
    assert(rendered::<F, B, K, U, P>(stream, (m - 1) as nat, args, x, y, before, middle, blend, program, uniforms));
    assert(step_outcome::<F, B, K, U, P>(middle, after, stream[m - 1], args, x, y, blend, program, uniforms));
    assert(rendered::<F, B, K, U, P>(stream, m, args, x, y, before, after, blend, program, uniforms));
}

/// A pixel outside the tile is left as it is, and leaving a pixel outside
/// the tile as it is is what any stream does.
pub proof fn lemma_rendered_outside<F: Framebuffer, B: Blend<F::Color>, K: Interpolate, U, P: Fn(&ScreenVertex<K>, &U) -> Fragment<F::Color>>(
    stream: Seq<ScreenPrimitive<K>>,
    n: nat,
    args: RasterArguments<F::Stencil>,
    x: int,
    y: int,
    before: (F::Color, F::Depth, F::Stencil),
    after: (F::Color, F::Depth, F::Stencil),
    blend: B,
    program: P,
    uniforms: U,
)
    requires
        !tile_contains(args.tile, x, y),
    ensures
        rendered::<F, B, K, U, P>(stream, n, args, x, y, before, after, blend, program, uniforms) <==> after
            == before,
    decreases n,
{
    if n > 0 {
        if rendered::<F, B, K, U, P>(stream, n, args, x, y, before, after, blend, program, uniforms) {
            let middle = choose|middle: (F::Color, F::Depth, F::Stencil)|
                rendered::<F, B, K, U, P>(
                    stream,
                    (n - 1) as nat,
                    args,
                    x,
                    y,
                    before,
                    middle,
                    blend,
                    program,
                    uniforms,
                ) && #[trigger] step_outcome::<F, B, K, U, P>(
                    middle,
                    after,
                    stream[n - 1],
                    args,
                    x,
                    y,
                    blend,
                    program,
                    uniforms,
                );
            lemma_rendered_outside::<F, B, K, U, P>(
                stream,
                (n - 1) as nat,
                args,
                x,
                y,
                before,
                middle,
                blend,
                program,
                uniforms,
            );
        }
        if after == before {
            lemma_rendered_outside::<F, B, K, U, P>(
                stream,
                (n - 1) as nat,
                args,
                x,
                y,
                before,
                before,
                blend,
                program,
                uniforms,
            );
            assert(step_outcome::<F, B, K, U, P>(
                before,
                after,
                stream[n - 1],
                args,
                x,
                y,
                blend,
                program,
                uniforms,
            ));
        }
    }
}

/// What a stream leaves of a pixel depends on the arguments only by the
/// stencil settings, the culling, the antialiasing and whether the tile
/// holds the pixel.
pub proof fn lemma_rendered_transfer<F: Framebuffer, B: Blend<F::Color>, K: Interpolate, U, P: Fn(&ScreenVertex<K>, &U) -> Fragment<F::Color>>(
    stream: Seq<ScreenPrimitive<K>>,
    n: nat,
    from: RasterArguments<F::Stencil>,
    to: RasterArguments<F::Stencil>,
    x: int,
    y: int,
    before: (F::Color, F::Depth, F::Stencil),
    after: (F::Color, F::Depth, F::Stencil),
    blend: B,
    program: P,
    uniforms: U,
)
    requires
        rendered::<F, B, K, U, P>(stream, n, from, x, y, before, after, blend, program, uniforms),
        tile_contains(from.tile, x, y) == tile_contains(to.tile, x, y),
        from.stencil() == to.stencil(),
        from.cull_faces == to.cull_faces,
        from.antialiased_lines == to.antialiased_lines,
    ensures
        rendered::<F, B, K, U, P>(stream, n, to, x, y, before, after, blend, program, uniforms),
    decreases n,
{
    if n > 0 {
        let middle = choose|middle: (F::Color, F::Depth, F::Stencil)|
            rendered::<F, B, K, U, P>(
                stream,
                (n - 1) as nat,
                from,
                x,
                y,
                before,
                middle,
                blend,
                program,
                uniforms,
            ) && #[trigger] step_outcome::<F, B, K, U, P>(
                middle,
                after,
                stream[n - 1],
                from,
                x,
                y,
                blend,
                program,
                uniforms,
            );
        lemma_rendered_transfer::<F, B, K, U, P>(
            stream,
            (n - 1) as nat,
            from,
            to,
            x,
            y,
            before,
            middle,
            blend,
            program,
            uniforms,
        );
        assert(step_outcome::<F, B, K, U, P>(middle, after, stream[n - 1], to, x, y, blend, program, uniforms));
    }
}

/// What a first stream leaves, followed by what a second stream leaves, is
/// what the two streams joined leave.
pub proof fn lemma_rendered_joined<F: Framebuffer, B: Blend<F::Color>, K: Interpolate, U, P: Fn(&ScreenVertex<K>, &U) -> Fragment<F::Color>>(
    first: Seq<ScreenPrimitive<K>>,
    second: Seq<ScreenPrimitive<K>>,
    n: nat,
    args: RasterArguments<F::Stencil>,
    x: int,
    y: int,
    before: (F::Color, F::Depth, F::Stencil),
    middle: (F::Color, F::Depth, F::Stencil),
    after: (F::Color, F::Depth, F::Stencil),
    blend: B,
    program: P,
    uniforms: U,
)
    requires
        n <= second.len(),
        rendered::<F, B, K, U, P>(first, first.len(), args, x, y, before, middle, blend, program, uniforms),
        rendered::<F, B, K, U, P>(second, n, args, x, y, middle, after, blend, program, uniforms),
    ensures
        rendered::<F, B, K, U, P>(first + second, first.len() + n, args, x, y, before, after, blend, program, uniforms),
    decreases n,
{
    let joined = first + second;
    if n == 0 {
        lemma_rendered_prefix::<F, B, K, U, P>(
            first,
            joined,
            first.len(),
            args,
            x,
            y,
            before,
            middle,
            blend,
            program,
            uniforms,
        );
    } else {
        let between = choose|between: (F::Color, F::Depth, F::Stencil)|
            rendered::<F, B, K, U, P>(
                second,
                (n - 1) as nat,
                args,
                x,
                y,
                middle,
                between,
                blend,
                program,
                uniforms,
            ) && #[trigger] step_outcome::<F, B, K, U, P>(
                between,
                after,
                second[n - 1],
                args,
                x,
                y,
                blend,
                program,
                uniforms,
            );
        lemma_rendered_joined::<F, B, K, U, P>(
            first,
            second,
            (n - 1) as nat,
            args,
            x,
            y,
            before,
            middle,
            between,
            blend,
            program,
            uniforms,
        );
        assert(joined[first.len() + n - 1] == second[n - 1]);
        lemma_rendered_next::<F, B, K, U, P>(
            joined,
            (first.len() + n - 1) as nat,
            args,
            x,
            y,
            before,
            between,
            after,
            blend,
            program,
            uniforms,
        );
    }
}

/// What the first `n` primitives of a stream leave does not depend on the
/// primitives that follow them.
pub proof fn lemma_rendered_prefix<F: Framebuffer, B: Blend<F::Color>, K: Interpolate, U, P: Fn(&ScreenVertex<K>, &U) -> Fragment<F::Color>>(
    stream: Seq<ScreenPrimitive<K>>,
    longer: Seq<ScreenPrimitive<K>>,
    n: nat,
    args: RasterArguments<F::Stencil>,
    x: int,
    y: int,
    before: (F::Color, F::Depth, F::Stencil),
    after: (F::Color, F::Depth, F::Stencil),
    blend: B,
    program: P,
    uniforms: U,
)
    requires
        n <= stream.len() <= longer.len(),
        forall|j: int| 0 <= j < n ==> stream[j] == longer[j],
        rendered::<F, B, K, U, P>(stream, n, args, x, y, before, after, blend, program, uniforms),
    ensures
        rendered::<F, B, K, U, P>(longer, n, args, x, y, before, after, blend, program, uniforms),
    decreases n,
{
    if n > 0 {
        let middle = choose|middle: (F::Color, F::Depth, F::Stencil)|
            rendered::<F, B, K, U, P>(
                stream,
                (n - 1) as nat,
                args,
                x,
                y,
                before,
                middle,
                blend,
                program,
                uniforms,
            ) && #[trigger] step_outcome::<F, B, K, U, P>(
                middle,
                after,
                stream[n - 1],
                args,
                x,
                y,
                blend,
                program,
                uniforms,
            );
        lemma_rendered_prefix::<F, B, K, U, P>(
            stream,
            longer,
            (n - 1) as nat,
            args,
            x,
            y,
            before,
            middle,
            blend,
            program,
            uniforms,
        );
        lemma_rendered_next::<F, B, K, U, P>(
            longer,
            (n - 1) as nat,
            args,
            x,
            y,
            before,
            middle,
            after,
            blend,
            program,
            uniforms,
        );
    }
}

/// Whether the cells `after` are what rasterizing the whole of `stream`
/// under `args` may leave of the cells `before`: every cell is what the
/// stream leaves of it at its pixel.
pub open spec fn cells_rendered<F: Framebuffer, B: Blend<F::Color>, K: Interpolate, U, P: Fn(&ScreenVertex<K>, &U) -> Fragment<F::Color>>(
    stream: Seq<ScreenPrimitive<K>>,
    args: RasterArguments<F::Stencil>,
    before: Seq<(F::Color, F::Depth, F::Stencil)>,
    after: Seq<(F::Color, F::Depth, F::Stencil)>,
    blend: B,
    program: P,
    uniforms: U,
) -> bool {
    &&& after.len() == before.len()
    &&& forall|i: int|
        0 <= i < before.len() ==> rendered::<F, B, K, U, P>(
            stream,
            stream.len(),
            args,
            column_of(args.dimensions, i),
            row_of(args.dimensions, i),
            before[i],
            #[trigger] after[i],
            blend,
            program,
            uniforms,
        )
}

/// Whether the cells `after` are what the first `n` primitives of `stream`
/// may leave of the cells `before`.
pub open spec fn cells_rendered_to<F: Framebuffer, B: Blend<F::Color>, K: Interpolate, U, P: Fn(&ScreenVertex<K>, &U) -> Fragment<F::Color>>(
    stream: Seq<ScreenPrimitive<K>>,
    n: nat,
    args: RasterArguments<F::Stencil>,
    before: Seq<(F::Color, F::Depth, F::Stencil)>,
    after: Seq<(F::Color, F::Depth, F::Stencil)>,
    blend: B,
    program: P,
    uniforms: U,
) -> bool {
    &&& after.len() == before.len()
    &&& forall|i: int|
        0 <= i < before.len() ==> rendered::<F, B, K, U, P>(
            stream,
            n,
            args,
            column_of(args.dimensions, i),
            row_of(args.dimensions, i),
            before[i],
            #[trigger] after[i],
            blend,
            program,
            uniforms,
        )
}

/// Rasterizing a first stream and then a second one leaves what
/// rasterizing the two streams joined leaves.
pub proof fn lemma_cells_joined<F: Framebuffer, B: Blend<F::Color>, K: Interpolate, U, P: Fn(&ScreenVertex<K>, &U) -> Fragment<F::Color>>(
    first: Seq<ScreenPrimitive<K>>,
    second: Seq<ScreenPrimitive<K>>,
    args: RasterArguments<F::Stencil>,
    before: Seq<(F::Color, F::Depth, F::Stencil)>,
    middle: Seq<(F::Color, F::Depth, F::Stencil)>,
    after: Seq<(F::Color, F::Depth, F::Stencil)>,
    blend: B,
    program: P,
    uniforms: U,
)
    requires
        cells_rendered::<F, B, K, U, P>(first, args, before, middle, blend, program, uniforms),
        cells_rendered::<F, B, K, U, P>(second, args, middle, after, blend, program, uniforms),
    ensures
        cells_rendered::<F, B, K, U, P>(first + second, args, before, after, blend, program, uniforms),
{
    assert forall|i: int| 0 <= i < before.len() implies rendered::<F, B, K, U, P>(
        first + second,
        (first + second).len(),
        args,
        column_of(args.dimensions, i),
        row_of(args.dimensions, i),
        before[i],
        #[trigger] after[i],
        blend,
        program,
        uniforms,
    ) by {
        assert(rendered::<F, B, K, U, P>(
            first,
            first.len(),
            args,
            column_of(args.dimensions, i),
            row_of(args.dimensions, i),
            before[i],
            middle[i],
            blend,
            program,
            uniforms,
        ));
        lemma_rendered_joined::<F, B, K, U, P>(
            first,
            second,
            second.len(),
            args,
            column_of(args.dimensions, i),
            row_of(args.dimensions, i),
            before[i],
            middle[i],
            after[i],
            blend,
            program,
            uniforms,
        );
    }
}

/// Rasterizing one more primitive after the first `n` primitives of a
/// stream leaves what the first `n + 1` primitives leave.
pub proof fn lemma_cells_next<F: Framebuffer, B: Blend<F::Color>, K: Interpolate, U, P: Fn(&ScreenVertex<K>, &U) -> Fragment<F::Color>>(
    stream: Seq<ScreenPrimitive<K>>,
    n: nat,
    args: RasterArguments<F::Stencil>,
    before: Seq<(F::Color, F::Depth, F::Stencil)>,
    middle: Seq<(F::Color, F::Depth, F::Stencil)>,
    after: Seq<(F::Color, F::Depth, F::Stencil)>,
    blend: B,
    program: P,
    uniforms: U,
)
    requires
        cells_rendered_to::<F, B, K, U, P>(stream, n, args, before, middle, blend, program, uniforms),
        after.len() == middle.len(),
        forall|i: int|
            0 <= i < middle.len() ==> step_outcome::<F, B, K, U, P>(
                middle[i],
                #[trigger] after[i],
                stream[n as int],
                args,
                column_of(args.dimensions, i),
                row_of(args.dimensions, i),
                blend,
                program,
                uniforms,
            ),
    ensures
        cells_rendered_to::<F, B, K, U, P>(stream, n + 1, args, before, after, blend, program, uniforms),
{
    assert forall|i: int| 0 <= i < before.len() implies rendered::<F, B, K, U, P>(
        stream,
        n + 1,
        args,
        column_of(args.dimensions, i),
        row_of(args.dimensions, i),
        before[i],
        #[trigger] after[i],
        blend,
        program,
        uniforms,
    ) by {
        assert(rendered::<F, B, K, U, P>(
            stream,
            n,
            args,
            column_of(args.dimensions, i),
            row_of(args.dimensions, i),
            before[i],
            middle[i],
            blend,
            program,
            uniforms,
        ));
        lemma_rendered_next::<F, B, K, U, P>(
            stream,
            n,
            args,
            column_of(args.dimensions, i),
            row_of(args.dimensions, i),
            before[i],
            middle[i],
            after[i],
            blend,
            program,
            uniforms,
        );
    }
}

/// Whether the fragment function has one result for every vertex.
pub open spec fn deterministic<K, U, C, P: Fn(&ScreenVertex<K>, &U) -> Fragment<C>>(program: P, uniforms: U) -> bool {
    forall|vertex: ScreenVertex<K>, first: Fragment<C>, second: Fragment<C>|
        #[trigger] call_ensures(program, (&vertex, &uniforms), first) && #[trigger] call_ensures(
            program,
            (&vertex, &uniforms),
            second,
        ) ==> first == second
}

/// With a fragment function that has one result for every vertex, a stream
/// leaves one cell of every cell.
pub proof fn lemma_rendered_unique<F: Framebuffer, B: Blend<F::Color>, K: Interpolate, U, P: Fn(&ScreenVertex<K>, &U) -> Fragment<F::Color>>(
    stream: Seq<ScreenPrimitive<K>>,
    n: nat,
    args: RasterArguments<F::Stencil>,
    x: int,
    y: int,
    before: (F::Color, F::Depth, F::Stencil),
    first: (F::Color, F::Depth, F::Stencil),
    second: (F::Color, F::Depth, F::Stencil),
    blend: B,
    program: P,
    uniforms: U,
)
    requires
        deterministic::<K, U, F::Color, P>(program, uniforms),
        rendered::<F, B, K, U, P>(stream, n, args, x, y, before, first, blend, program, uniforms),
        rendered::<F, B, K, U, P>(stream, n, args, x, y, before, second, blend, program, uniforms),
    ensures
        first == second,
    decreases n,
{
    if n > 0 {
        let one = choose|middle: (F::Color, F::Depth, F::Stencil)|
            rendered::<F, B, K, U, P>(
                stream,
                (n - 1) as nat,
                args,
                x,
                y,
                before,
                middle,
                blend,
                program,
                uniforms,
            ) && #[trigger] step_outcome::<F, B, K, U, P>(
                middle,
                first,
                stream[n - 1],
                args,
                x,
                y,
                blend,
                program,
                uniforms,
            );
        let other = choose|middle: (F::Color, F::Depth, F::Stencil)|
            rendered::<F, B, K, U, P>(
                stream,
                (n - 1) as nat,
                args,
                x,
                y,
                before,
                middle,
                blend,
                program,
                uniforms,
            ) && #[trigger] step_outcome::<F, B, K, U, P>(
                middle,
                second,
                stream[n - 1],
                args,
                x,
                y,
                blend,
                program,
                uniforms,
            );
        lemma_rendered_unique::<F, B, K, U, P>(
            stream,
            (n - 1) as nat,
            args,
            x,
            y,
            before,
            one,
            other,
            blend,
            program,
            uniforms,
        );
    }
}

/// Determinism: with a fragment function that has one result for every
/// vertex, rasterizing a stream has one outcome, in whatever order and by
/// however many workers the tiles are worked off.
pub proof fn lemma_cells_unique<F: Framebuffer, B: Blend<F::Color>, K: Interpolate, U, P: Fn(&ScreenVertex<K>, &U) -> Fragment<F::Color>>(
    stream: Seq<ScreenPrimitive<K>>,
    args: RasterArguments<F::Stencil>,
    before: Seq<(F::Color, F::Depth, F::Stencil)>,
    first: Seq<(F::Color, F::Depth, F::Stencil)>,
    second: Seq<(F::Color, F::Depth, F::Stencil)>,
    blend: B,
    program: P,
    uniforms: U,
)
    requires
        deterministic::<K, U, F::Color, P>(program, uniforms),
        cells_rendered::<F, B, K, U, P>(stream, args, before, first, blend, program, uniforms),
        cells_rendered::<F, B, K, U, P>(stream, args, before, second, blend, program, uniforms),
    ensures
        first == second,
{
    assert forall|i: int| 0 <= i < first.len() implies first[i] == second[i] by {
        assert(rendered::<F, B, K, U, P>(
            stream,
            stream.len(),
            args,
            column_of(args.dimensions, i),
            row_of(args.dimensions, i),
            before[i],
            first[i],
            blend,
            program,
            uniforms,
        ));
        assert(rendered::<F, B, K, U, P>(
            stream,
            stream.len(),
            args,
            column_of(args.dimensions, i),
            row_of(args.dimensions, i),
            before[i],
            second[i],
            blend,
            program,
            uniforms,
        ));
        lemma_rendered_unique::<F, B, K, U, P>(
            stream,
            stream.len(),
            args,
            column_of(args.dimensions, i),
            row_of(args.dimensions, i),
            before[i],
            first[i],
            second[i],
            blend,
            program,
            uniforms,
        );
    }
    assert(first =~= second);
}

/// The indices that a reference to a list of indices stands for.
pub open spec fn indices_view(indices: Option<&Vec<u32>>) -> Option<Seq<u32>> {
    match indices {
        Some(indices) => Some(indices@),
        None => None,
    }
}

/// The number of vertices that the indices pick.
fn selected_len<K>(vertices: &Vec<ScreenVertex<K>>, indices: Option<&Vec<u32>>) -> (n: usize)
    ensures
        n == selected(vertices@, indices_view(indices)).len(),
{
    match indices {
        Some(indices) => indices.len(),
        None => vertices.len(),
    }
}

/// The vertex at the position `j` among the vertices that the indices pick.
fn select<'a, K>(vertices: &'a Vec<ScreenVertex<K>>, indices: Option<&Vec<u32>>, j: usize) -> (vertex: &'a ScreenVertex<K>)
    requires
        indices_in_range(vertices@, indices_view(indices)),
        j < selected(vertices@, indices_view(indices)).len(),
    ensures
        *vertex == selected(vertices@, indices_view(indices))[j as int],
        exists|k: int| 0 <= k < vertices@.len() && *vertex == vertices@[k],
{
    match indices {
        Some(indices) => {
            let k = indices[j] as usize;
            assert(indices@[j as int] < vertices@.len());
            assert(*(&vertices[k as int]) == vertices@[k as int]);
            &vertices[k]
        },
        None => {
            assert(*(&vertices[j as int]) == vertices@[j as int]);
            &vertices[j]
        },
    }
}

/// Rasterizes the triangles that the picked vertices spell out, one after
/// the other.
pub fn rasterize_triangles<F, B, K, U, P>(
    args: &RasterArguments<F::Stencil>,
    framebuffer: &mut F,
    blend: &B,
    program: &P,
    uniforms: &U,
    vertices: &Vec<ScreenVertex<K>>,
    indices: Option<&Vec<u32>>,
) where F: Framebuffer, B: Blend<F::Color>, K: Interpolate, P: Fn(&ScreenVertex<K>, &U) -> Fragment<F::Color>
    requires
        old(framebuffer).wf(),
        old(framebuffer).spec_dimensions() == args.dimensions,
        tile_in_bounds(*args),
        forall|vertex: ScreenVertex<K>| call_requires(*program, (&vertex, uniforms)),
        indices_in_range(vertices@, indices_view(indices)),
        depths_in_range::<F::Depth, K>(vertices@),
        selected(vertices@, indices_view(indices)).len() % 3 == 0,
    ensures
        final(framebuffer).wf(),
        final(framebuffer).spec_dimensions() == old(framebuffer).spec_dimensions(),
        cells_rendered::<F, B, K, U, P>(
            triangles_of(selected(vertices@, indices_view(indices))),
            *args,
            old(framebuffer).cells(),
            final(framebuffer).cells(),
            *blend,
            *program,
            *uniforms,
        ),
{
    let ghost stream = triangles_of(selected(vertices@, indices_view(indices)));
    let count = selected_len(vertices, indices) / 3;
    let mut j: usize = 0;
    while j < count
        invariant
            framebuffer.wf(),
            framebuffer.spec_dimensions() == args.dimensions,
            tile_in_bounds(*args),
            forall|vertex: ScreenVertex<K>| call_requires(*program, (&vertex, uniforms)),
            indices_in_range(vertices@, indices_view(indices)),
            depths_in_range::<F::Depth, K>(vertices@),
            stream == triangles_of(selected(vertices@, indices_view(indices))),
            count == stream.len(),
            count * 3 == selected(vertices@, indices_view(indices)).len(),
            selected(vertices@, indices_view(indices)).len() <= usize::MAX,
            j <= count,
            cells_rendered_to::<F, B, K, U, P>(
                stream,
                j as nat,
                *args,
                old(framebuffer).cells(),
                framebuffer.cells(),
                *blend,
                *program,
                *uniforms,
            ),
        decreases count - j,
    {
        let a = select(vertices, indices, 3 * j);
        let b = select(vertices, indices, 3 * j + 1);
        let c = select(vertices, indices, 3 * j + 2);
        let ghost middle = framebuffer.cells();
        rasterize_triangle(args, framebuffer, blend, program, uniforms, a, b, c);
        proof {
            assert(stream[j as int] == ScreenPrimitive::Triangle(*a, *b, *c));
            lemma_cells_next::<F, B, K, U, P>(
                stream,
                j as nat,
                *args,
                old(framebuffer).cells(),
                middle,
                framebuffer.cells(),
                *blend,
                *program,
                *uniforms,
            );
        }
        j += 1;
    }
}

/// Rasterizes the lines that the picked vertices spell out, one after the other.
pub fn rasterize_lines<F, B, K, U, P>(
    args: &RasterArguments<F::Stencil>,
    framebuffer: &mut F,
    blend: &B,
    program: &P,
    uniforms: &U,
    vertices: &Vec<ScreenVertex<K>>,
    indices: Option<&Vec<u32>>,
) where F: Framebuffer, B: Blend<F::Color>, K: Interpolate, P: Fn(&ScreenVertex<K>, &U) -> Fragment<F::Color>
    requires
        old(framebuffer).wf(),
        old(framebuffer).spec_dimensions() == args.dimensions,
        tile_in_bounds(*args),
        forall|vertex: ScreenVertex<K>| call_requires(*program, (&vertex, uniforms)),
        indices_in_range(vertices@, indices_view(indices)),
        depths_in_range::<F::Depth, K>(vertices@),
        selected(vertices@, indices_view(indices)).len() % 2 == 0,
    ensures
        final(framebuffer).wf(),
        final(framebuffer).spec_dimensions() == old(framebuffer).spec_dimensions(),
        cells_rendered::<F, B, K, U, P>(
            lines_of(selected(vertices@, indices_view(indices))),
            *args,
            old(framebuffer).cells(),
            final(framebuffer).cells(),
            *blend,
            *program,
            *uniforms,
        ),
{
    let ghost stream = lines_of(selected(vertices@, indices_view(indices)));
    let count = selected_len(vertices, indices) / 2;
    let mut j: usize = 0;
    while j < count
        invariant
            framebuffer.wf(),
            framebuffer.spec_dimensions() == args.dimensions,
            tile_in_bounds(*args),
            forall|vertex: ScreenVertex<K>| call_requires(*program, (&vertex, uniforms)),
            indices_in_range(vertices@, indices_view(indices)),
            depths_in_range::<F::Depth, K>(vertices@),
            stream == lines_of(selected(vertices@, indices_view(indices))),
            count == stream.len(),
            count * 2 == selected(vertices@, indices_view(indices)).len(),
            selected(vertices@, indices_view(indices)).len() <= usize::MAX,
            j <= count,
            cells_rendered_to::<F, B, K, U, P>(
                stream,
                j as nat,
                *args,
                old(framebuffer).cells(),
                framebuffer.cells(),
                *blend,
                *program,
                *uniforms,
            ),
        decreases count - j,
    {
        let start = select(vertices, indices, 2 * j);
        let end = select(vertices, indices, 2 * j + 1);
        let ghost middle = framebuffer.cells();
        rasterize_line(args, framebuffer, blend, program, uniforms, start, end);
        proof {
            assert(stream[j as int] == ScreenPrimitive::Line(*start, *end));
            lemma_cells_next::<F, B, K, U, P>(
                stream,
                j as nat,
                *args,
                old(framebuffer).cells(),
                middle,
                framebuffer.cells(),
                *blend,
                *program,
                *uniforms,
            );
        }
        j += 1;
    }
}

/// Rasterizes the picked vertices as points, one after the other.
pub fn rasterize_points<F, B, K, U, P>(
    args: &RasterArguments<F::Stencil>,
    framebuffer: &mut F,
    blend: &B,
    program: &P,
    uniforms: &U,
    vertices: &Vec<ScreenVertex<K>>,
    indices: Option<&Vec<u32>>,
) where F: Framebuffer, B: Blend<F::Color>, K: Interpolate, P: Fn(&ScreenVertex<K>, &U) -> Fragment<F::Color>
    requires
        old(framebuffer).wf(),
        old(framebuffer).spec_dimensions() == args.dimensions,
        tile_in_bounds(*args),
        forall|vertex: ScreenVertex<K>| call_requires(*program, (&vertex, uniforms)),
        indices_in_range(vertices@, indices_view(indices)),
        depths_in_range::<F::Depth, K>(vertices@),
    ensures
        final(framebuffer).wf(),
        final(framebuffer).spec_dimensions() == old(framebuffer).spec_dimensions(),
        cells_rendered::<F, B, K, U, P>(
            points_of(selected(vertices@, indices_view(indices))),
            *args,
            old(framebuffer).cells(),
            final(framebuffer).cells(),
            *blend,
            *program,
            *uniforms,
        ),
{
    let ghost stream = points_of(selected(vertices@, indices_view(indices)));
    let count = selected_len(vertices, indices);
    let mut j: usize = 0;
    while j < count
        invariant
            framebuffer.wf(),
            framebuffer.spec_dimensions() == args.dimensions,
            tile_in_bounds(*args),
            forall|vertex: ScreenVertex<K>| call_requires(*program, (&vertex, uniforms)),
            indices_in_range(vertices@, indices_view(indices)),
            depths_in_range::<F::Depth, K>(vertices@),
            stream == points_of(selected(vertices@, indices_view(indices))),
            count == stream.len(),
            j <= count,
            cells_rendered_to::<F, B, K, U, P>(
                stream,
                j as nat,
                *args,
                old(framebuffer).cells(),
                framebuffer.cells(),
                *blend,
                *program,
                *uniforms,
            ),
        decreases count - j,
    {
        let point = select(vertices, indices, j);
        let ghost middle = framebuffer.cells();
        rasterize_point(args, framebuffer, blend, program, uniforms, point);
        proof {
            assert(stream[j as int] == ScreenPrimitive::Point(*point));
            lemma_cells_next::<F, B, K, U, P>(
                stream,
                j as nat,
                *args,
                old(framebuffer).cells(),
                middle,
                framebuffer.cells(),
                *blend,
                *program,
                *uniforms,
            );
        }
        j += 1;
    }
}

/// Checks whether the depth type `D` has a value for the depth of every vertex.
pub fn depths_fit<D: Depth, K>(vertices: &Vec<ScreenVertex<K>>) -> (fit: bool)
    ensures
        fit == depths_in_range::<D, K>(vertices@),
{
    let mut j: usize = 0;
    while j < vertices.len()
        invariant
            j <= vertices@.len(),
            forall|k: int| 0 <= k < j ==> (#[trigger] D::spec_from_scalar(vertices@[k].position.z)).is_some(),
        decreases vertices@.len() - j,
    {
        match D::from_scalar(vertices[j].position.z) {
            Ok(_) => {},
            Err(_) => {
                return false;
            },
        }
        j += 1;
    }
    true
}

/// Checks whether every index names one of `count` vertices.
pub fn indices_fit(indices: &Vec<u32>, count: usize) -> (fit: bool)
    ensures
        fit == indices_below(indices@, count as int),
{
    let mut j: usize = 0;
    while j < indices.len()
        invariant
            j <= indices@.len(),
            forall|k: int| 0 <= k < j ==> (#[trigger] indices@[k]) < count,
        decreases indices@.len() - j,
    {
        if indices[j] as usize >= count {
            return false;
        }
        j += 1;
    }
    true
}

} // verus!
