//! A CPU software rasterizer: typed framebuffers, a stencil engine, a tile
//! planner and the fragment stage that shades the pixels covered by
//! screen-space primitives.
//!
//! The conventions of the library:
//!
//! - Screen-space positions are fixed-point numbers with 256 positions per
//!   pixel; `x` grows to the right and `y` downwards. Depths are whole
//!   numbers in the units of the depth buffer.
//! - Depth is greater-is-closer: a fragment passes the depth test when its
//!   depth is strictly greater than the stored one, and a cleared buffer
//!   holds the smallest depth.
//! - A triangle covers the pixels whose center lies inside it or on one of
//!   its top or left edges, so triangles that share an edge share no pixel.
//! - The fragment stage works the surface off in tiles. The tiles leave out
//!   the last row and the last column of the framebuffer.
//! - Every fragment applies the stencil operation, whether it passes the
//!   stencil test and the depth test or not.

pub mod attachments;
pub mod error;
pub mod framebuffer;
pub mod geometry;
pub mod mesh;
pub mod numeric;
pub mod pipeline;
pub mod primitive;
pub mod stencil;
pub mod texture;
