//! Framebuffers: the raster surfaces that hold a color, a depth and a
//! stencil value for every pixel.

use vstd::prelude::*;

use crate::attachments::{Depth, Stencil};
use crate::error::{RenderError, RenderResult};
use crate::geometry::coordinate::lemma_index_in_area;
use crate::geometry::{Coordinate, Dimensions};

pub mod renderbuffer;
pub mod texturebuffer;

pub use self::renderbuffer::RenderBuffer;
pub use self::texturebuffer::{RgbaTextureBuffer, TextureBufferRef};

verus! {

/// The cell that `clear` leaves in every pixel: the clear color, the
/// farthest depth and the default stencil value.
pub open spec fn cleared_cell<C, D: Depth, S: Stencil>(color: C) -> (C, D, S) {
    (color, D::spec_far(), S::spec_default())
}

/// A raster surface with a color, a depth and a stencil value per pixel.
///
/// The pixels are addressed by their row-major index. `cells` is the
/// mathematical content of the surface: one `(color, depth, stencil)`
/// triple per pixel, in index order.
pub trait Framebuffer: Sized {
    /// The color of a pixel.
    type Color;

    /// The depth of a pixel.
    type Depth: Depth + Copy;

    /// The stencil value of a pixel.
    type Stencil: Stencil + Copy;

    /// The dimensions that the surface was made with.
    spec fn spec_dimensions(&self) -> Dimensions;

    /// The content of the surface, one cell per pixel.
    spec fn cells(&self) -> Seq<(Self::Color, Self::Depth, Self::Stencil)>;

    /// Whether the surface holds its invariant.
    spec fn wf(&self) -> bool;

    /// A well-formed surface has one cell per pixel of its dimensions.
    proof fn lemma_cells_len(&self)
        requires
            self.wf(),
        ensures
            self.cells().len() == self.spec_dimensions().spec_area(),
            self.spec_dimensions().spec_area() <= usize::MAX,
    ;

    /// The dimensions of the surface.
    fn dimensions(&self) -> (d: Dimensions)
        ensures
            d == self.spec_dimensions(),
    ;

    /// Reads the color of the pixel at `index`, which the caller knows to be in bounds.
    fn get_pixel_unchecked(&self, index: usize) -> (color: Self::Color)
        requires
            self.wf(),
            index < self.cells().len(),
        ensures
            color == self.cells()[index as int].0,
    ;

    /// Writes the color of the pixel at `index`, which the caller knows to be in bounds.
    fn set_pixel_unchecked(&mut self, index: usize, color: Self::Color)
        requires
            old(self).wf(),
            index < old(self).cells().len(),
        ensures
            final(self).wf(),
            final(self).spec_dimensions() == old(self).spec_dimensions(),
            final(self).cells() == old(self).cells().update(
                index as int,
                (color, old(self).cells()[index as int].1, old(self).cells()[index as int].2),
            ),
    ;

    /// Reads the depth of the pixel at `index`, which the caller knows to be in bounds.
    fn get_depth_unchecked(&self, index: usize) -> (depth: Self::Depth)
        requires
            self.wf(),
            index < self.cells().len(),
        ensures
            depth == self.cells()[index as int].1,
    ;

    /// Writes the depth of the pixel at `index`, which the caller knows to be in bounds.
    fn set_depth_unchecked(&mut self, index: usize, depth: Self::Depth)
        requires
            old(self).wf(),
            index < old(self).cells().len(),
        ensures
            final(self).wf(),
            final(self).spec_dimensions() == old(self).spec_dimensions(),
            final(self).cells() == old(self).cells().update(
                index as int,
                (old(self).cells()[index as int].0, depth, old(self).cells()[index as int].2),
            ),
    ;

    /// Reads the stencil value of the pixel at `index`, which the caller knows to be in bounds.
    fn get_stencil_unchecked(&self, index: usize) -> (stencil: Self::Stencil)
        requires
            self.wf(),
            index < self.cells().len(),
        ensures
            stencil == self.cells()[index as int].2,
    ;

    /// Writes the stencil value of the pixel at `index`, which the caller knows to be in bounds.
    fn set_stencil_unchecked(&mut self, index: usize, stencil: Self::Stencil)
        requires
            old(self).wf(),
            index < old(self).cells().len(),
        ensures
            final(self).wf(),
            final(self).spec_dimensions() == old(self).spec_dimensions(),
            final(self).cells() == old(self).cells().update(
                index as int,
                (old(self).cells()[index as int].0, old(self).cells()[index as int].1, stencil),
            ),
    ;

    /// Overwrites every pixel: the color with `color`, the depth with the
    /// farthest value and the stencil with its default.
    fn clear(&mut self, color: Self::Color)
        requires
            old(self).wf(),
        ensures
            final(self).wf(),
            final(self).spec_dimensions() == old(self).spec_dimensions(),
            final(self).cells().len() == old(self).cells().len(),
            forall|i: int|
                0 <= i < final(self).cells().len() ==> #[trigger] final(self).cells()[i]
                    == cleared_cell::<Self::Color, Self::Depth, Self::Stencil>(color),
    ;

    /// Reads the color of the pixel at `index`, or fails with `OutOfBounds`
    /// when the surface has no such pixel.
    fn get_pixel(&self, index: usize) -> (r: RenderResult<Self::Color>)
        requires
            self.wf(),
        ensures
            r == if index < self.cells().len() {
                Ok::<Self::Color, RenderError>(self.cells()[index as int].0)
            } else {
                Err::<Self::Color, RenderError>(RenderError::OutOfBounds)
            },
    {
        proof {
            self.lemma_cells_len();
        }
        if index < self.dimensions().area() {
            Ok(self.get_pixel_unchecked(index))
        } else {
            Err(RenderError::OutOfBounds)
        }
    }

    /// Writes the color of the pixel at `index`, or fails with `OutOfBounds`
    /// and changes nothing when the surface has no such pixel.
    fn set_pixel(&mut self, index: usize, color: Self::Color) -> (r: RenderResult<()>)
        requires
            old(self).wf(),
        ensures
            final(self).wf(),
            final(self).spec_dimensions() == old(self).spec_dimensions(),
            index < old(self).cells().len() ==> r == Ok::<(), RenderError>(()) && final(self).cells()
                == old(self).cells().update(
                index as int,
                (color, old(self).cells()[index as int].1, old(self).cells()[index as int].2),
            ),
            index >= old(self).cells().len() ==> r == Err::<(), RenderError>(RenderError::OutOfBounds)
                && final(self).cells() == old(self).cells(),
    {
        proof {
            self.lemma_cells_len();
        }
        if index < self.dimensions().area() {
            self.set_pixel_unchecked(index, color);
            Ok(())
        } else {
            Err(RenderError::OutOfBounds)
        }
    }

    /// Reads the color of the pixel at `coordinate`, or fails with
    /// `OutOfBounds` when the coordinate lies outside the dimensions of the
    /// surface.
    fn get_pixel_at(&self, coordinate: Coordinate) -> (r: RenderResult<Self::Color>)
        requires
            self.wf(),
        ensures
            r == if coordinate.within(self.spec_dimensions()) {
                Ok::<Self::Color, RenderError>(self.cells()[coordinate.spec_index(self.spec_dimensions())].0)
            } else {
                Err::<Self::Color, RenderError>(RenderError::OutOfBounds)
            },
    {
        let dimensions = self.dimensions();
        if coordinate.x < dimensions.width && coordinate.y < dimensions.height {
            proof {
                self.lemma_cells_len();
                lemma_index_in_area(
                    coordinate.x as int,
                    coordinate.y as int,
                    dimensions.width as int,
                    dimensions.height as int,
                );
            }
            Ok(self.get_pixel_unchecked(coordinate.into_index(dimensions)))
        } else {
            Err(RenderError::OutOfBounds)
        }
    }

    /// Writes the color of the pixel at `coordinate`, or fails with
    /// `OutOfBounds` and changes nothing when the coordinate lies outside
    /// the dimensions of the surface.
    fn set_pixel_at(&mut self, coordinate: Coordinate, color: Self::Color) -> (r: RenderResult<()>)
        requires
            old(self).wf(),
        ensures
            final(self).wf(),
            final(self).spec_dimensions() == old(self).spec_dimensions(),
            coordinate.within(old(self).spec_dimensions()) ==> r == Ok::<(), RenderError>(())
                && final(self).cells() == old(self).cells().update(
                coordinate.spec_index(old(self).spec_dimensions()),
                (
                    color,
                    old(self).cells()[coordinate.spec_index(old(self).spec_dimensions())].1,
                    old(self).cells()[coordinate.spec_index(old(self).spec_dimensions())].2,
                ),
            ),
            !coordinate.within(old(self).spec_dimensions()) ==> r == Err::<(), RenderError>(
                RenderError::OutOfBounds,
            ) && final(self).cells() == old(self).cells(),
    {
        let dimensions = self.dimensions();
        if coordinate.x < dimensions.width && coordinate.y < dimensions.height {
            proof {
                self.lemma_cells_len();
                lemma_index_in_area(
                    coordinate.x as int,
                    coordinate.y as int,
                    dimensions.width as int,
                    dimensions.height as int,
                );
            }
            self.set_pixel_unchecked(coordinate.into_index(dimensions), color);
            Ok(())
        } else {
            Err(RenderError::OutOfBounds)
        }
    }
}

} // verus!
