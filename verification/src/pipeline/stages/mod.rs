//! The stages of the pipeline.

pub mod fragment;

pub use self::fragment::{Fragment, FragmentShader};
