//! Blending of a fragment color into the color that a pixel holds.

use vstd::prelude::*;

use super::color::{Color, Rgba};

verus! {

/// The coverage of a pixel by a primitive for which the pixel is only
/// partly covered: no coverage at `0`, full coverage at `FULL_COVERAGE`.
pub type Coverage = u8;

/// The coverage of a pixel that a primitive covers fully.
pub const FULL_COVERAGE: u8 = 255;

/// A rule that combines the color of a fragment with the color of a pixel.
pub trait Blend<C> {
    /// The color that the pixel holds after a fragment of color `source`
    /// that covers `coverage` of it was drawn over `destination`.
    spec fn spec_blend(&self, source: C, destination: C, coverage: Coverage) -> C;

    /// Blends the color `source` of a fragment into the color `destination`
    /// of the pixel that it covers by `coverage`.
    fn blend(&self, source: C, destination: C, coverage: Coverage) -> (c: C)
        ensures
            c == self.spec_blend(source, destination, coverage),
    ;
}

/// The rule that replaces the color of the pixel with the color of the fragment.
#[derive(Debug, Clone, Copy, PartialEq, Eq, Structural, Hash)]
pub struct Overwrite;

impl Default for Overwrite {
    fn default() -> Overwrite {
        Overwrite
    }
}

impl<C> Blend<C> for Overwrite {
    open spec fn spec_blend(&self, source: C, destination: C, coverage: Coverage) -> C {
        source
    }

    #[inline]
    fn blend(&self, source: C, _destination: C, _coverage: Coverage) -> C {
        source
    }
}

/// The rule that replaces the color of the pixel with the color of the
/// fragment, its alpha scaled by the coverage.
#[derive(Debug, Clone, Copy, PartialEq, Eq, Structural, Hash)]
pub struct ScaleAlpha;

impl Default for ScaleAlpha {
    fn default() -> ScaleAlpha {
        ScaleAlpha
    }
}

impl<C: Color<Alpha = u8>> Blend<C> for ScaleAlpha {
    open spec fn spec_blend(&self, source: C, destination: C, coverage: Coverage) -> C {
        source.spec_mul_alpha(coverage)
    }

    #[inline]
    fn blend(&self, source: C, _destination: C, coverage: Coverage) -> C {
        source.mul_alpha(coverage)
    }
}

/// The mix of a channel `source` over a channel `destination` at the
/// opacity `alpha`, where 255 is opaque: the weighted mean of the two,
/// rounded down.
pub open spec fn mix(source: u8, destination: u8, alpha: u8) -> u8 {
    ((source * alpha + destination * (255 - alpha)) / 255) as u8
}

/// The rule that draws the color of the fragment over the color of the
/// pixel: the opacity of the fragment is its alpha scaled by the coverage,
/// every color channel is mixed at that opacity, and the alpha of the
/// pixel is mixed with full alpha at that opacity.
#[derive(Debug, Clone, Copy, PartialEq, Eq, Structural, Hash)]
pub struct SourceOver;

impl Default for SourceOver {
    fn default() -> SourceOver {
        SourceOver
    }
}

/// Mixes the channel `source` over the channel `destination` at the opacity `alpha`.
fn mix_channel(source: u8, destination: u8, alpha: u8) -> (mixed: u8)
    ensures
        mixed == mix(source, destination, alpha),
{
    assert(0 <= source * alpha + destination * (255 - alpha) <= 255 * 255) by (nonlinear_arith)
        requires
            0 <= source <= 255,
            0 <= destination <= 255,
            0 <= alpha <= 255,
    ;
    let sum: u32 = source as u32 * alpha as u32 + destination as u32 * (255 - alpha as u32);
    (sum / 255) as u8
}

impl Blend<Rgba<u8>> for SourceOver {
    open spec fn spec_blend(&self, source: Rgba<u8>, destination: Rgba<u8>, coverage: Coverage) -> Rgba<u8> {
        let alpha = source.spec_mul_alpha(coverage).data[3];
        Rgba {
            data: [
                mix(source.data[0], destination.data[0], alpha),
                mix(source.data[1], destination.data[1], alpha),
                mix(source.data[2], destination.data[2], alpha),
                mix(255, destination.data[3], alpha),
            ],
        }
    }

    fn blend(&self, source: Rgba<u8>, destination: Rgba<u8>, coverage: Coverage) -> Rgba<u8> {
        let alpha = source.mul_alpha(coverage).data[3];
        Rgba {
            data: [
                mix_channel(source.data[0], destination.data[0], alpha),
                mix_channel(source.data[1], destination.data[1], alpha),
                mix_channel(source.data[2], destination.data[2], alpha),
                mix_channel(255, destination.data[3], alpha),
            ],
        }
    }
}

} // verus!
