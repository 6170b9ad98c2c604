//! The per-pixel stage: the stencil test, the depth test, the fragment
//! function, blending and the write-back.

use vstd::prelude::*;

use crate::attachments::{Blend, Coverage, Depth, Stencil, StencilOp, StencilTest};
use crate::framebuffer::Framebuffer;
use crate::geometry::{Dimensions, FaceWinding, ScreenVertex};
use crate::pipeline::tiles::Tile;

verus! {

/// What the fragment function makes of a fragment.
#[derive(Debug, Clone, Copy)]
pub enum Fragment<C> {
    /// Discard the fragment altogether, as if it was never there.
    Discard,
    /// The color that the fragment gives to its pixel.
    Color(C),
}

/// The settings under which the primitives of one tile are rasterized.
#[derive(Debug, Clone, Copy)]
pub struct RasterArguments<S> {
    /// The dimensions of the framebuffer.
    pub dimensions: Dimensions,
    /// The tile to which every write is confined.
    pub tile: Tile,
    /// The reference value of the stencil test and the stencil operation.
    pub stencil_value: S,
    /// The stencil test.
    pub stencil_test: StencilTest,
    /// The stencil operation.
    pub stencil_op: StencilOp,
    /// Whether lines are drawn with partial coverage at their borders.
    pub antialiased_lines: bool,
    /// The winding of the triangles that are not drawn, if any.
    pub cull_faces: Option<FaceWinding>,
}

/// The stencil settings of a draw: the reference value, the test and the operation.
pub struct StencilState<S> {
    /// The reference value of the stencil test and the stencil operation.
    pub value: S,
    /// The stencil test.
    pub test: StencilTest,
    /// The stencil operation.
    pub op: StencilOp,
}

impl<S> RasterArguments<S> {
    /// The stencil settings among the arguments.
    pub open spec fn stencil(self) -> StencilState<S> {
        StencilState { value: self.stencil_value, test: self.stencil_test, op: self.stencil_op }
    }
}

/// Whether a fragment of the given depth passes the stencil test and the
/// depth test against `cell`: the test holds of the reference value and the
/// stored stencil, and the fragment is strictly closer than the stored depth.
pub open spec fn admits<C, D: Depth, S: Stencil>(cell: (C, D, S), test: StencilTest, value: S, depth: D) -> bool {
    test.test_spec(value, cell.2) && cell.1.spec_less(depth)
}

/// The cell after a fragment that leaves color and depth as they are: only
/// the stencil operation is applied.
pub open spec fn rejected_cell<C, D, S: Stencil>(cell: (C, D, S), op: StencilOp, value: S) -> (C, D, S) {
    (cell.0, cell.1, op.op_spec(cell.2, value))
}

/// The cell after an admitted fragment: a discarded fragment leaves color
/// and depth as they are; a colored one stores the blended color and its
/// depth. The stencil operation is applied in both cases.
pub open spec fn shaded_cell<C, D, S: Stencil, B: Blend<C>>(
    cell: (C, D, S),
    op: StencilOp,
    value: S,
    depth: D,
    fragment: Fragment<C>,
    blend: B,
    coverage: Coverage,
) -> (C, D, S) {
    match fragment {
        Fragment::Discard => rejected_cell(cell, op, value),
        Fragment::Color(color) => (blend.spec_blend(color, cell.0, coverage), depth, op.op_spec(cell.2, value)),
    }
}

/// Runs the stencil test and the depth test for a fragment of the given
/// depth at the pixel `index`.
pub fn test_fragment<F: Framebuffer>(
    args: &RasterArguments<F::Stencil>,
    framebuffer: &F,
    index: usize,
    depth: F::Depth,
) -> (admitted: bool)
    requires
        framebuffer.wf(),
        index < framebuffer.cells().len(),
    ensures
        admitted == admits(framebuffer.cells()[index as int], args.stencil_test, args.stencil_value, depth),
{
    let stored = framebuffer.get_stencil_unchecked(index);
    if !args.stencil_test.test(args.stencil_value, stored) {
        return false;
    }
    Depth::less(framebuffer.get_depth_unchecked(index), depth)
}

/// Applies the stencil operation to the pixel `index` and leaves its color
/// and depth as they are.
pub fn reject_fragment<F: Framebuffer>(args: &RasterArguments<F::Stencil>, framebuffer: &mut F, index: usize)
    requires
        old(framebuffer).wf(),
        index < old(framebuffer).cells().len(),
    ensures
        final(framebuffer).wf(),
        final(framebuffer).spec_dimensions() == old(framebuffer).spec_dimensions(),
        final(framebuffer).cells() == old(framebuffer).cells().update(
            index as int,
            rejected_cell(old(framebuffer).cells()[index as int], args.stencil_op, args.stencil_value),
        ),
{
    let stored = framebuffer.get_stencil_unchecked(index);
    framebuffer.set_stencil_unchecked(index, args.stencil_op.op(stored, args.stencil_value));
}

/// Writes an admitted fragment to the pixel `index`: the blended color and
/// the depth unless the fragment was discarded, and the stencil operation.
pub fn write_fragment<F: Framebuffer, B: Blend<F::Color>>(
    args: &RasterArguments<F::Stencil>,
    framebuffer: &mut F,
    blend: &B,
    index: usize,
    depth: F::Depth,
    fragment: Fragment<F::Color>,
    coverage: Coverage,
)
    requires
        old(framebuffer).wf(),
        index < old(framebuffer).cells().len(),
    ensures
        final(framebuffer).wf(),
        final(framebuffer).spec_dimensions() == old(framebuffer).spec_dimensions(),
        final(framebuffer).cells() == old(framebuffer).cells().update(
            index as int,
            shaded_cell(
                old(framebuffer).cells()[index as int],
                args.stencil_op,
                args.stencil_value,
                depth,
                fragment,
                *blend,
                coverage,
            ),
        ),
{
    match fragment {
        Fragment::Discard => {},
        Fragment::Color(color) => {
            let blended = blend.blend(color, framebuffer.get_pixel_unchecked(index), coverage);
            framebuffer.set_pixel_unchecked(index, blended);
            framebuffer.set_depth_unchecked(index, depth);
        },
    }
    let stored = framebuffer.get_stencil_unchecked(index);
    framebuffer.set_stencil_unchecked(index, args.stencil_op.op(stored, args.stencil_value));
    assert(framebuffer.cells() =~= old(framebuffer).cells().update(
        index as int,
        shaded_cell(
            old(framebuffer).cells()[index as int],
            args.stencil_op,
            args.stencil_value,
            depth,
            fragment,
            *blend,
            coverage,
        ),
    ));
}

/// Whether `after` is what the per-pixel stage may leave of the cell
/// `before` for a fragment with the given interpolated vertex, depth and
/// coverage.
///
/// A fragment that fails the stencil test or the depth test changes the
/// stencil value only. For a fragment that passes both, the fragment
/// function is called on the vertex and the uniforms, and the cell is
/// written as the result of that call says.
pub open spec fn pixel_outcome<C, D: Depth, S: Stencil, B: Blend<C>, K, U, P: Fn(&ScreenVertex<K>, &U) -> Fragment<C>>(
    before: (C, D, S),
    after: (C, D, S),
    stencil: StencilState<S>,
    blend: B,
    program: P,
    uniforms: U,
    vertex: ScreenVertex<K>,
    depth: D,
    coverage: Coverage,
) -> bool {
    if admits(before, stencil.test, stencil.value, depth) {
        exists|fragment: Fragment<C>|
            call_ensures(program, (&vertex, &uniforms), fragment) && after == shaded_cell(
                before,
                stencil.op,
                stencil.value,
                depth,
                fragment,
                blend,
                coverage,
            )
    } else {
        after == rejected_cell(before, stencil.op, stencil.value)
    }
}

/// Runs the per-pixel stage for one fragment at the pixel `index`: the
/// stencil test, the depth test, the fragment function on `vertex`, blending
/// and the write-back. No other pixel changes.
pub fn shade_pixel<F, B, K, U, P>(
    args: &RasterArguments<F::Stencil>,
    framebuffer: &mut F,
    blend: &B,
    program: &P,
    uniforms: &U,
    index: usize,
    vertex: &ScreenVertex<K>,
    depth: F::Depth,
    coverage: Coverage,
) where F: Framebuffer, B: Blend<F::Color>, P: Fn(&ScreenVertex<K>, &U) -> Fragment<F::Color>
    requires
        old(framebuffer).wf(),
        index < old(framebuffer).cells().len(),
        call_requires(*program, (vertex, uniforms)),
    ensures
        final(framebuffer).wf(),
        final(framebuffer).spec_dimensions() == old(framebuffer).spec_dimensions(),
        final(framebuffer).cells().len() == old(framebuffer).cells().len(),
        forall|i: int|
            0 <= i < old(framebuffer).cells().len() && i != index ==> #[trigger] final(framebuffer).cells()[i]
                == old(framebuffer).cells()[i],
        pixel_outcome(
            old(framebuffer).cells()[index as int],
            final(framebuffer).cells()[index as int],
            args.stencil(),
            *blend,
            *program,
            *uniforms,
            *vertex,
            depth,
            coverage,
        ),
{
    if test_fragment(args, framebuffer, index, depth) {
        let fragment = program(vertex, uniforms);
        write_fragment(args, framebuffer, blend, index, depth, fragment, coverage);
    } else {
        reject_fragment(args, framebuffer, index);
    }
}

} // verus!
