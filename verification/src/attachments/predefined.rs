//! Ready-made attachment bundles.

use std::marker::PhantomData;

use vstd::prelude::*;

use super::{Attachments, Color, Depth, Stencil};

verus! {

/// The bundle without any attachment.
#[derive(Debug, Clone, Copy, PartialEq, Eq, Hash)]
pub struct EmptyAttachments;

impl Attachments for EmptyAttachments {
    type Color = ();

    type Depth = ();

    type Stencil = ();
}

/// The bundle of a color, a depth and a stencil attachment.
#[derive(Debug)]
pub struct ColorDepthStencilAttachments<C, D, S> {
    color: PhantomData<C>,
    depth: PhantomData<D>,
    stencil: PhantomData<S>,
}

impl<C: Color, D: Depth, S: Stencil> Attachments for ColorDepthStencilAttachments<C, D, S> {
    type Color = C;

    type Depth = D;

    type Stencil = S;
}

} // verus!
