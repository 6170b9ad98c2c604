//! The texture buffer: a framebuffer that keeps its colors in a plane of
//! their own, which can be read as a texture without copying.

use std::ops::Deref;

use vstd::prelude::*;

use super::{cleared_cell, Framebuffer};
use crate::attachments::{Attachments, Color, Depth, EmptyAttachment, Rgba, Stencil};
use crate::geometry::Dimensions;
use crate::texture::TextureRead;

verus! {

/// A read-only view of one color plane of a texture buffer.
///
/// The view borrows the plane and the buffer that it belongs to, so the
/// plane is seen at the dimensions that the buffer has.
pub struct TextureBufferRef<'a, F: Framebuffer, C: Color> {
    buffer: &'a [C],
    parent: &'a F,
}

impl<'a, F: Framebuffer, C: Color> TextureBufferRef<'a, F, C> {
    /// The colors of the plane.
    pub closed spec fn plane(&self) -> Seq<C> {
        self.buffer@
    }

    /// The buffer that the plane belongs to.
    pub closed spec fn parent(&self) -> &F {
        self.parent
    }

    /// A view of the plane `buffer` of the framebuffer `parent`.
    pub fn __new(buffer: &'a [C], parent: &'a F) -> (view: TextureBufferRef<'a, F, C>)
        ensures
            view.plane() == buffer@,
            view.parent() == parent,
    {
        TextureBufferRef { buffer, parent }
    }
}

impl<'a, F: Framebuffer, C: Color> Deref for TextureBufferRef<'a, F, C> {
    type Target = [C];

    #[inline]
    fn deref(&self) -> (colors: &[C])
        ensures
            colors@ == self.plane(),
    {
        self.buffer
    }
}

impl<'a, F: Framebuffer, C: Color + Copy> TextureRead for TextureBufferRef<'a, F, C> {
    type Color = C;

    open spec fn texture_dimensions(&self) -> Dimensions {
        self.parent().spec_dimensions()
    }

    open spec fn texels(&self) -> Seq<C> {
        self.plane()
    }

    #[inline]
    fn dimensions(&self) -> Dimensions {
        self.parent.dimensions()
    }

    #[inline]
    fn len(&self) -> usize {
        self.buffer.len()
    }

    #[inline]
    fn get_pixel_unchecked(&self, index: usize) -> C {
        self.buffer[index]
    }
}

/// A texture buffer with one color plane of red, green, blue and alpha
/// channels. Depth and stencil are those of the attachments `A`, whose own
/// color attachment is empty.
pub struct RgbaTextureBuffer<A: Attachments> where A::Color: EmptyAttachment {
    color: Vec<Rgba<u8>>,
    dimensions: Dimensions,
    buffer: Vec<(A::Depth, A::Stencil)>,
}

impl<A: Attachments> RgbaTextureBuffer<A> where A::Color: EmptyAttachment, A::Depth: Copy, A::Stencil: Copy {
    /// Creates a texture buffer without pixels.
    pub fn new() -> (fb: RgbaTextureBuffer<A>)
        ensures
            fb.wf(),
            fb.spec_dimensions() == (Dimensions { width: 0, height: 0 }),
            fb.cells().len() == 0,
    {
        let fb = RgbaTextureBuffer { color: Vec::new(), dimensions: Dimensions::new(0, 0), buffer: Vec::new() };
        assert(fb.cells().len() == 0);
        fb
    }

    /// Creates a texture buffer of the given dimensions in which every
    /// pixel holds the empty color, the farthest depth and the default
    /// stencil.
    pub fn with_dimensions(dimensions: Dimensions) -> (fb: RgbaTextureBuffer<A>)
        requires
            dimensions.spec_area() <= usize::MAX,
        ensures
            fb.wf(),
            fb.spec_dimensions() == dimensions,
            fb.cells().len() == dimensions.spec_area(),
            forall|i: int|
                0 <= i < fb.cells().len() ==> #[trigger] fb.cells()[i] == cleared_cell::<
                    (Rgba<u8>,),
                    A::Depth,
                    A::Stencil,
                >((Rgba::<u8>::spec_empty(),)),
    {
        let pixels = dimensions.area();
        let mut color: Vec<Rgba<u8>> = Vec::new();
        let mut buffer: Vec<(A::Depth, A::Stencil)> = Vec::new();
        let mut i: usize = 0;
        while i < pixels
            invariant
                i <= pixels,
                color@.len() == i,
                buffer@.len() == i,
                forall|k: int| 0 <= k < i ==> #[trigger] color@[k] == Rgba::<u8>::spec_empty(),
                forall|k: int|
                    0 <= k < i ==> #[trigger] buffer@[k] == (A::Depth::spec_far(), A::Stencil::spec_default()),
            decreases pixels - i,
        {
            let stencil = A::Stencil::default();
            proof {
                A::Stencil::lemma_stencil_laws();
            }
            color.push(Rgba::<u8>::empty());
            buffer.push((A::Depth::far(), stencil));
            i += 1;
        }
        let fb = RgbaTextureBuffer { color, dimensions, buffer };
        assert(fb.cells().len() == dimensions.spec_area());
        fb
    }

    /// The color plane of the buffer, as a texture.
    #[inline(always)]
    pub fn color(&self) -> (plane: TextureBufferRef<'_, Self, Rgba<u8>>)
        requires
            self.wf(),
        ensures
            plane.parent() == self,
            plane.plane().len() == self.cells().len(),
            forall|i: int| 0 <= i < self.cells().len() ==> (#[trigger] plane.plane()[i]) == self.cells()[i].0.0,
    {
        assert(self.cells().len() == self.color@.len());
        TextureBufferRef::__new(self.color.as_slice(), self)
    }
}

impl<A: Attachments> Framebuffer for RgbaTextureBuffer<A> where
    A::Color: EmptyAttachment,
    A::Depth: Copy,
    A::Stencil: Copy,
 {
    type Color = (Rgba<u8>,);

    type Depth = A::Depth;

    type Stencil = A::Stencil;

    closed spec fn spec_dimensions(&self) -> Dimensions {
        self.dimensions
    }

    closed spec fn cells(&self) -> Seq<((Rgba<u8>,), A::Depth, A::Stencil)> {
        Seq::new(self.buffer@.len(), |i: int| ((self.color@[i],), self.buffer@[i].0, self.buffer@[i].1))
    }

    closed spec fn wf(&self) -> bool {
        &&& self.buffer@.len() == self.dimensions.spec_area()
        &&& self.color@.len() == self.dimensions.spec_area()
        &&& self.dimensions.spec_area() <= usize::MAX
    }

    proof fn lemma_cells_len(&self) {
        assert(self.wf());
        assert(self.cells().len() == self.buffer@.len());
        assert(self.spec_dimensions() == self.dimensions);
    }

    #[inline]
    fn dimensions(&self) -> Dimensions {
        assert(self.spec_dimensions() == self.dimensions);
        self.dimensions
    }

    fn get_pixel_unchecked(&self, index: usize) -> (Rgba<u8>,) {
        assert(self.cells()[index as int].0 == (self.color@[index as int],));
        (self.color[index],)
    }

    fn set_pixel_unchecked(&mut self, index: usize, color: (Rgba<u8>,)) {
        let (plane,) = color;
        self.color.set(index, plane);
        assert(self.cells() =~= old(self).cells().update(
            index as int,
            (color, old(self).cells()[index as int].1, old(self).cells()[index as int].2),
        ));
    }

    #[inline]
    fn get_depth_unchecked(&self, index: usize) -> A::Depth {
        assert(self.cells()[index as int].1 == self.buffer@[index as int].0);
        self.buffer[index].0
    }

    #[inline]
    fn set_depth_unchecked(&mut self, index: usize, depth: A::Depth) {
        let (_, stencil) = self.buffer[index];
        self.buffer.set(index, (depth, stencil));
        assert(self.cells() =~= old(self).cells().update(
            index as int,
            (old(self).cells()[index as int].0, depth, old(self).cells()[index as int].2),
        ));
    }

    #[inline]
    fn get_stencil_unchecked(&self, index: usize) -> A::Stencil {
        assert(self.cells()[index as int].2 == self.buffer@[index as int].1);
        self.buffer[index].1
    }

    #[inline]
    fn set_stencil_unchecked(&mut self, index: usize, stencil: A::Stencil) {
        let (depth, _) = self.buffer[index];
        self.buffer.set(index, (depth, stencil));
        assert(self.cells() =~= old(self).cells().update(
            index as int,
            (old(self).cells()[index as int].0, old(self).cells()[index as int].1, stencil),
        ));
    }

    fn clear(&mut self, color: (Rgba<u8>,)) {
        // Take the tuple apart into the colors of the planes.
        let (plane,) = color;
        let pixels = self.buffer.len();
        let mut i: usize = 0;
        while i < pixels
            invariant
                i <= pixels,
                self.color@.len() == pixels,
                self.buffer@.len() == pixels,
                self.dimensions == old(self).dimensions,
                forall|k: int| 0 <= k < i ==> #[trigger] self.color@[k] == plane,
            decreases pixels - i,
        {
            self.color.set(i, plane);
            i += 1;
        }
        let mut j: usize = 0;
        while j < pixels
            invariant
                j <= pixels,
                self.color@.len() == pixels,
                self.buffer@.len() == pixels,
                self.dimensions == old(self).dimensions,
                forall|k: int| 0 <= k < pixels ==> #[trigger] self.color@[k] == plane,
                forall|k: int|
                    0 <= k < j ==> #[trigger] self.buffer@[k] == (A::Depth::spec_far(), A::Stencil::spec_default()),
            decreases pixels - j,
        {
            let stencil = A::Stencil::default();
            proof {
                A::Stencil::lemma_stencil_laws();
            }
            self.buffer.set(j, (A::Depth::far(), stencil));
            j += 1;
        }
        assert(self.cells().len() == old(self).cells().len());
        assert forall|i: int| 0 <= i < self.cells().len() implies #[trigger] self.cells()[i] == cleared_cell::<
            (Rgba<u8>,),
            A::Depth,
            A::Stencil,
        >(color) by {
            assert(self.color@[i] == plane);
            assert(self.buffer@[i] == (A::Depth::spec_far(), A::Stencil::spec_default()));
        }
    }
}

} // verus!
