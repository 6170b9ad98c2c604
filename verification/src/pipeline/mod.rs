//! The pipeline: the framebuffer that is drawn to, the stencil
//! configuration and the uniforms of a draw, and the fragment stage with
//! its tile planning, rasterization and per-pixel tests and writes.

use vstd::prelude::*;

pub mod line;
pub mod pixel;
pub mod rasterization;
pub mod stages;
pub mod storage;
pub mod stream;
pub mod tiles;
pub mod triangle;

pub use self::stages::{Fragment, FragmentShader};

verus! {

/// What a draw works on: the framebuffer, the stencil configuration and
/// the uniforms that the fragment function reads.
pub struct Pipeline<F, G, U> {
    /// The framebuffer that is drawn to.
    pub framebuffer: F,
    /// The stencil test and the stencil operation of the draw.
    pub stencil_config: G,
    /// The values that every call of the fragment function receives.
    pub uniforms: U,
}

impl<F, G, U> Pipeline<F, G, U> {
    /// Puts a pipeline together.
    pub fn new(framebuffer: F, stencil_config: G, uniforms: U) -> (pipeline: Pipeline<F, G, U>)
        ensures
            pipeline.framebuffer == framebuffer,
            pipeline.stencil_config == stencil_config,
            pipeline.uniforms == uniforms,
    {
        Pipeline { framebuffer, stencil_config, uniforms }
    }
}

} // verus!
