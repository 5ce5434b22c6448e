//! Render passes and their colour attachments.

use vstd::prelude::*;

use crate::render::gpu::{
    Operations, RenderPass, RenderPassColorAttachment, RenderPassDepthStencilAttachment,
    TextureView,
};

verus! {

/// The parameters of a render pass.
#[derive(Clone, Copy, Debug)]
pub struct RenderPassBuilder<'a> {
    pub label: Option<&'static str>,
    pub color_attachments: &'a [Option<RenderPassColorAttachment<'a>>],
    pub depth_stencil_attachment: Option<RenderPassDepthStencilAttachment<'a>>,
}

/// The parameters of a colour attachment, but for the view it renders to.
#[derive(Clone, Copy, Debug)]
pub struct RenderPassColorAttachmentBuilder<'a> {
    pub resolve_target: Option<&'a TextureView>,
    pub ops: Operations,
}

impl<'a> RenderPassBuilder<'a> {
    /// Begins the pass: it has the label and the attachments given, and
    /// nothing is recorded in it yet.
    pub fn begin(self) -> (render_pass: RenderPass<'a>)
        ensures
            render_pass.target() == (
                self.label,
                self.color_attachments@,
                self.depth_stencil_attachment,
            ),
            render_pass.commands@ == Seq::<crate::render::gpu::Command<'a>>::empty(),
    {
        RenderPass {
            label: self.label,
            color_attachments: self.color_attachments,
            depth_stencil_attachment: self.depth_stencil_attachment,
            commands: Vec::new(),
        }
    }
}

impl<'a> RenderPassColorAttachmentBuilder<'a> {
    /// The attachment that renders to `view`.
    pub fn into_color_attachment(self, view: &'a TextureView) -> (attachment:
        RenderPassColorAttachment<'a>)
        ensures
            attachment == (RenderPassColorAttachment {
                view,
                resolve_target: self.resolve_target,
                ops: self.ops,
            }),
    {
        RenderPassColorAttachment { view, resolve_target: self.resolve_target, ops: self.ops }
    }

    /// The attachment that renders to `view`, as an entry of a pass's list of
    /// attachments.
    pub fn into_color_attachment_opt(self, view: &'a TextureView) -> (attachment: Option<
        RenderPassColorAttachment<'a>,
    >)
        ensures
            attachment == Some(
                RenderPassColorAttachment {
                    view,
                    resolve_target: self.resolve_target,
                    ops: self.ops,
                },
            ),
    {
        Some(self.into_color_attachment(view))
    }
}

} // verus!
