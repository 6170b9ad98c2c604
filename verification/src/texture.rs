//! Textures: read-only surfaces of colors.

use vstd::prelude::*;

use crate::geometry::Dimensions;

verus! {

/// A surface of colors that can be read texel by texel.
pub trait TextureRead {
    /// The color of a texel.
    type Color;

    /// The dimensions of the texture.
    spec fn texture_dimensions(&self) -> Dimensions;

    /// The texels of the texture, in row-major order.
    spec fn texels(&self) -> Seq<Self::Color>;

    /// The dimensions of the texture.
    fn dimensions(&self) -> (d: Dimensions)
        ensures
            d == self.texture_dimensions(),
    ;

    /// The number of texels that can be read.
    fn len(&self) -> (n: usize)
        ensures
            n == self.texels().len(),
    ;

    /// Reads the texel at `index`, which the caller knows to be in bounds.
    fn get_pixel_unchecked(&self, index: usize) -> (color: Self::Color)
        requires
            index < self.texels().len(),
        ensures
            color == self.texels()[index as int],
    ;
}

} // verus!
