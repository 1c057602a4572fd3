//! The state of a window that targets are presented to.

use vstd::prelude::*;
use crate::raw::{Extent2D, IMAGE_USAGE_TRANSFER_DST};
use crate::render::RenderEngine;

verus! {

/// The usage that the images of a window's swapchain are created with: they
/// are the destination of the copy that presents a target.
pub const SWAPCHAIN_IMAGE_USAGE: u32 = IMAGE_USAGE_TRANSFER_DST;

/// A window's render engine and the extent of its surface.
pub struct WindowEngine {
    pub render: RenderEngine,
    /// The extent that the surface had when it was last heard of.
    pub current_extent: Extent2D,
}

impl WindowEngine {
    /// The state of a window whose surface has the extent `current_extent`.
    pub fn new(render: RenderEngine, current_extent: Extent2D) -> (made: Self)
        ensures
            made.render == render,
            made.current_extent == current_extent,
    {
        Self { render, current_extent }
    }

    /// Records the outcome of presenting an image: `resized` is the new
    /// extent of the surface if presenting found it changed. Returns that
    /// new extent.
    pub fn present(&mut self, resized: Option<Extent2D>) -> (changed: Option<Extent2D>)
        ensures
            changed == resized,
            final(self).render == old(self).render,
            final(self).current_extent == match resized {
                Some(extent) => extent,
                None => old(self).current_extent,
            },
    {
        match resized {
            Some(new_extent) => {
                self.current_extent = new_extent;
                Some(new_extent)
            },
            None => None,
        }
    }

    /// The extent that the surface had when it was last heard of.
    pub fn current_extent(&self) -> (extent: Extent2D)
        ensures
            extent == self.current_extent,
    {
        self.current_extent
    }
}

} // verus!
