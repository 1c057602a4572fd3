//! Render targets: a render pass with the images it draws to.

use vstd::prelude::*;
use crate::pass::{Attachments, RenderPass, RenderPassPrototype};

verus! {

/// What a device is asked for when a framebuffer is created.
pub struct FramebufferCreateInfo {
    /// Handle of the render pass that the framebuffer is for.
    pub render_pass: u64,
    /// The image views of the attachments, in the order of the render pass's
    /// attachment table.
    pub attachments: Vec<u64>,
    pub width: u32,
    pub height: u32,
    pub layers: u32,
}

/// The images that a render pass of `G` draws to, bound to the render pass by
/// a framebuffer.
pub struct Target<G: RenderPassPrototype> {
    /// Handle of the render pass.
    pub render_pass: u64,
    pub attachments: Attachments<G>,
    /// Handle of the framebuffer.
    pub framebuffer: u64,
}

impl<G: RenderPassPrototype> Target<G> {
    /// What to ask the device for to bind `attachments` to the render pass
    /// `render_pass`: a framebuffer of one layer over all their image views,
    /// of their extent.
    pub fn create_framebuffer(render_pass: u64, attachments: &Attachments<G>) -> (info:
        FramebufferCreateInfo)
        ensures
            info.render_pass == render_pass,
            info.attachments@ == attachments.spec_as_raw(),
            info.width == attachments.extent.width,
            info.height == attachments.extent.height,
            info.layers == 1,
    {
        let extent = attachments.extent();
        FramebufferCreateInfo {
            render_pass,
            attachments: attachments.as_raw(),
            width: extent.width,
            height: extent.height,
            layers: 1,
        }
    }

    /// Describes the target made of `attachments` and the framebuffer
    /// `framebuffer`, which the device has created for them and `render_pass`.
    pub fn create(render_pass: &RenderPass<G>, attachments: Attachments<G>, framebuffer: u64) -> (made:
        Self)
        ensures
            made.render_pass == render_pass.render_pass,
            made.attachments == attachments,
            made.framebuffer == framebuffer,
    {
        Self { render_pass: render_pass.render_pass, attachments, framebuffer }
    }

    /// Replaces the attachments by `attachments` and the framebuffer by
    /// `framebuffer`, which the device has created for them.
    pub fn change_attachments(&mut self, attachments: Attachments<G>, framebuffer: u64)
        ensures
            final(self).render_pass == old(self).render_pass,
            final(self).attachments == attachments,
            final(self).framebuffer == framebuffer,
    {
        self.framebuffer = framebuffer;
        self.attachments = attachments;
    }

    /// The images that the target draws to.
    pub fn attachments(&self) -> (attachments: &Attachments<G>)
        ensures
            *attachments == self.attachments,
    {
        &self.attachments
    }

    /// The colour attachments that the target draws to.
    pub fn color_attachments(&self) -> (colors: &G::ColorAttachments)
        ensures
            *colors == self.attachments.color_attachments,
    {
        &self.attachments.color_attachments
    }
}

} // verus!
