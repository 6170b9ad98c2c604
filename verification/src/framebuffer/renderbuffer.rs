//! The render buffer: color, depth and stencil interleaved in one array.

use vstd::prelude::*;

use super::{cleared_cell, Framebuffer};
use crate::attachments::{Color, Depth, Stencil};
use crate::geometry::Dimensions;

verus! {

/// A framebuffer that stores one `(color, depth, stencil)` triple per pixel.
pub struct RenderBuffer<C, D, S> {
    dimensions: Dimensions,
    buffer: Vec<(C, D, S)>,
}

impl<C: Color + Copy, D: Depth + Copy, S: Stencil + Copy> RenderBuffer<C, D, S> {
    /// Creates a render buffer without pixels.
    pub fn new() -> (fb: RenderBuffer<C, D, S>)
        ensures
            fb.wf(),
            fb.spec_dimensions() == (Dimensions { width: 0, height: 0 }),
            fb.cells().len() == 0,
    {
        RenderBuffer { dimensions: Dimensions::new(0, 0), buffer: Vec::new() }
    }

    /// Creates a render buffer of the given dimensions in which every pixel
    /// holds the empty color, the farthest depth and the default stencil.
    pub fn with_dimensions(dimensions: Dimensions) -> (fb: RenderBuffer<C, D, S>)
        requires
            dimensions.spec_area() <= usize::MAX,
        ensures
            fb.wf(),
            fb.spec_dimensions() == dimensions,
            fb.cells().len() == dimensions.spec_area(),
            forall|i: int|
                0 <= i < fb.cells().len() ==> #[trigger] fb.cells()[i] == cleared_cell::<C, D, S>(
                    C::spec_empty(),
                ),
    {
        let pixels = dimensions.area();
        let mut buffer: Vec<(C, D, S)> = Vec::new();
        let mut i: usize = 0;
        while i < pixels
            invariant
                i <= pixels,
                buffer@.len() == i,
                forall|k: int| 0 <= k < i ==> #[trigger] buffer@[k] == cleared_cell::<C, D, S>(C::spec_empty()),
            decreases pixels - i,
        {
            let stencil = S::default();
            proof {
                S::lemma_stencil_laws();
            }
            buffer.push((C::empty(), D::far(), stencil));
            i += 1;
        }
        RenderBuffer { dimensions, buffer }
    }
}

impl<C: Color + Copy, D: Depth + Copy, S: Stencil + Copy> Framebuffer for RenderBuffer<C, D, S> {
    type Color = C;

    type Depth = D;

    type Stencil = S;

    closed spec fn spec_dimensions(&self) -> Dimensions {
        self.dimensions
    }

    closed spec fn cells(&self) -> Seq<(C, D, S)> {
        self.buffer@
    }

    closed spec fn wf(&self) -> bool {
        &&& self.buffer@.len() == self.dimensions.spec_area()
        &&& self.dimensions.spec_area() <= usize::MAX
    }

    proof fn lemma_cells_len(&self) {
        assert(self.wf());
        assert(self.cells() == self.buffer@);
        assert(self.spec_dimensions() == self.dimensions);
    }

    #[inline]
    fn dimensions(&self) -> Dimensions {
        assert(self.spec_dimensions() == self.dimensions);
        self.dimensions
    }

    #[inline]
    fn get_pixel_unchecked(&self, index: usize) -> C {
        self.buffer[index].0
    }

    #[inline]
    fn set_pixel_unchecked(&mut self, index: usize, color: C) {
        let (_, depth, stencil) = self.buffer[index];
        self.buffer.set(index, (color, depth, stencil));
    }

    #[inline]
    fn get_depth_unchecked(&self, index: usize) -> D {
        self.buffer[index].1
    }

    #[inline]
    fn set_depth_unchecked(&mut self, index: usize, depth: D) {
        let (color, _, stencil) = self.buffer[index];
        self.buffer.set(index, (color, depth, stencil));
    }

    #[inline]
    fn get_stencil_unchecked(&self, index: usize) -> S {
        self.buffer[index].2
    }

    #[inline]
    fn set_stencil_unchecked(&mut self, index: usize, stencil: S) {
        let (color, depth, _) = self.buffer[index];
        self.buffer.set(index, (color, depth, stencil));
    }

    fn clear(&mut self, color: C) {
        let pixels = self.buffer.len();
        let mut i: usize = 0;
        while i < pixels
            invariant
                i <= pixels,
                self.buffer@.len() == pixels,
                self.dimensions == old(self).dimensions,
                forall|k: int| 0 <= k < i ==> #[trigger] self.buffer@[k] == cleared_cell::<C, D, S>(color),
            decreases pixels - i,
        {
            let stencil = S::default();
            proof {
                S::lemma_stencil_laws();
            }
            self.buffer.set(i, (color, D::far(), stencil));
            i += 1;
        }
    }
}

} // verus!
