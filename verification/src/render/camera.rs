//! The camera's uniform: the view-projection matrix as a payload, and the
//! bind group that carries it to the vertex stage.

use vstd::prelude::*;

use crate::render::bytes::{is_native_image, words_to_bytes};
use crate::render::color::ONE;
use crate::render::gpu::{
    uniform_entry, BindGroup, BindGroupEntry, BindGroupLayout, BindGroupLayoutEntry, BindingType,
    Buffer, BufferBindingType, BufferUsages, Command, Recorder, RenderPass, ShaderStages,
};
use crate::render::vertex::matrix_words;

verus! {

/// The payload of the camera's uniform: a view-projection matrix as four
/// columns of four single-precision components, each held as its bit pattern.
#[derive(Clone, Copy, Debug, PartialEq, Eq)]
pub struct CameraPerspective {
    pub view_projection: [[u32; 4]; 4],
}

/// The words of the identity matrix.
pub open spec fn identity_words() -> Seq<u32> {
    Seq::new(16, |k: int| if k / 4 == k % 4 { ONE } else { 0u32 })
}

impl CameraPerspective {
    /// The payload that holds the identity matrix.
    pub fn new() -> (payload: CameraPerspective)
        ensures
            matrix_words(payload.view_projection) == identity_words(),
    {
        let payload = CameraPerspective {
            view_projection: [[ONE, 0, 0, 0], [0, ONE, 0, 0], [0, 0, ONE, 0], [0, 0, 0, ONE]],
        };
        assert(matrix_words(payload.view_projection) =~= identity_words());
        payload
    }

    /// Stores a newly computed view-projection matrix.
    pub fn update_view_proj(&mut self, view_projection: [[u32; 4]; 4])
        ensures
            final(self).view_projection == view_projection,
    {
        self.view_projection = view_projection;
    }

    /// The payload as the bytes that are uploaded: the memory image of the
    /// matrix, column after column.
    pub fn to_bytes(&self) -> (bytes: Vec<u8>)
        ensures
            is_native_image(bytes@, matrix_words(self.view_projection)),
    {
        let mut words: Vec<u32> = Vec::new();
        let mut k: usize = 0;
        while k < 16
            invariant
                k <= 16,
                words@ == matrix_words(self.view_projection).take(k as int),
            decreases 16 - k,
        {
            let column = &self.view_projection[k / 4];
            words.push(column[k % 4]);
            assert(words@ =~= matrix_words(self.view_projection).take(k + 1));
            k += 1;
        }
        assert(words@ =~= matrix_words(self.view_projection));
        words_to_bytes(&words)
    }

    /// Builds the bind group that carries `contents` as the camera's uniform.
    pub fn create_raw_bind(&self, contents: &[u8]) -> (bind: CameraBind)
        ensures
            bind.carries(contents@),
    {
        CameraBind::new(contents)
    }
}

/// The camera's uniform on the device: the layout of its bind group, and the
/// bind group with the uniform buffer in it.
#[derive(Debug, PartialEq, Eq)]
pub struct CameraBind {
    pub bind_group_layout: BindGroupLayout,
    pub bind_group: BindGroup,
}

/// `layout` is the camera's layout: one whole uniform buffer at binding 0,
/// seen by the vertex stage.
pub open spec fn is_camera_layout(layout: BindGroupLayout) -> bool {
    &&& layout.label matches Some(label) && label@ == "camera_bind_group_layout"@
    &&& layout.entries@ == seq![uniform_entry(0, ShaderStages::spec_vertex())]
}

impl CameraBind {
    /// This is the camera's bind group with `contents` in its uniform buffer:
    /// the fixed layout, and a buffer that can be written again, bound whole
    /// at binding 0.
    pub open spec fn carries(&self, contents: Seq<u8>) -> bool {
        &&& is_camera_layout(self.bind_group_layout)
        &&& is_camera_layout(self.bind_group.layout)
        &&& self.bind_group.label matches Some(label) && label@ == "camera_bind_group"@
        &&& self.bind_group.entries@.len() == 1
        &&& self.bind_group.entries@[0].binding == 0
        &&& self.bind_group.entries@[0].resource.label@ == "camera bind"@
        &&& self.bind_group.entries@[0].resource.usage == BufferUsages::spec_uniform()
        &&& self.bind_group.entries@[0].resource.contents@ == contents
    }

    fn layout() -> (layout: BindGroupLayout)
        ensures
            is_camera_layout(layout),
    {
        let mut entries: Vec<BindGroupLayoutEntry> = Vec::new();
        entries.push(
            BindGroupLayoutEntry {
                binding: 0,
                visibility: ShaderStages::vertex(),
                ty: BindingType::Buffer {
                    ty: BufferBindingType::Uniform,
                    has_dynamic_offset: false,
                    min_binding_size: None,
                },
                count: None,
            },
        );
        assert(entries@ =~= seq![uniform_entry(0, ShaderStages::spec_vertex())]);
        BindGroupLayout { label: Some("camera_bind_group_layout"), entries }
    }

    /// Builds the camera's bind group around a new uniform buffer that holds
    /// `contents`.
    pub fn new(contents: &[u8]) -> (bind: CameraBind)
        ensures
            bind.carries(contents@),
    {
        let buffer = Buffer {
            label: "camera bind",
            usage: BufferUsages::uniform(),
            contents: copy_bytes(contents),
        };
        let mut entries: Vec<BindGroupEntry> = Vec::new();
        entries.push(BindGroupEntry { binding: 0, resource: buffer });
        CameraBind {
            bind_group_layout: Self::layout(),
            bind_group: BindGroup {
                label: Some("camera_bind_group"),
                layout: Self::layout(),
                entries,
            },
        }
    }

    /// The contents of the uniform buffer once `contents` has been written at
    /// its start: what lay beyond them stays.
    pub open spec fn written(before: Seq<u8>, contents: Seq<u8>) -> Seq<u8> {
        contents + before.skip(contents.len() as int)
    }

    /// Whether `contents` can be written into the uniform buffer: there is a
    /// buffer, and they fit in it.
    pub open spec fn accepts(&self, contents: Seq<u8>) -> bool {
        &&& self.bind_group.entries@.len() >= 1
        &&& contents.len() <= self.bind_group.entries@[0].resource.contents@.len()
    }

    /// Overwrites the start of the uniform buffer with `contents`, in place:
    /// the buffer keeps its size and the bind group stays as it is. Contents
    /// that do not fit are refused, and nothing changes.
    pub fn update_buffer(&mut self, contents: &[u8]) -> (written: bool)
        ensures
            written == old(self).accepts(contents@),
            !written ==> *final(self) == *old(self),
            written ==> {
                let before = old(self).bind_group.entries@[0];
                let after = final(self).bind_group.entries@[0];
                &&& final(self).bind_group_layout == old(self).bind_group_layout
                &&& final(self).bind_group.label == old(self).bind_group.label
                &&& final(self).bind_group.layout == old(self).bind_group.layout
                &&& final(self).bind_group.entries@ == old(self).bind_group.entries@.update(
                    0,
                    after,
                )
                &&& after.binding == before.binding
                &&& after.resource.label == before.resource.label
                &&& after.resource.usage == before.resource.usage
                &&& after.resource.contents@ == Self::written(before.resource.contents@, contents@)
                &&& after.resource.contents@.len() == before.resource.contents@.len()
            },
    {
        if self.bind_group.entries.len() == 0 {
            return false;
        }
        if contents.len() > self.bind_group.entries[0].resource.contents.len() {
            return false;
        }
        let entry = self.bind_group.entries.remove(0);
        let BindGroupEntry { binding, resource } = entry;
        let Buffer { label, usage, contents: before } = resource;
        let mut bytes = copy_bytes(contents);
        let mut i: usize = contents.len();
        while i < before.len()
            invariant
                contents@.len() <= i <= before@.len(),
                bytes@ == contents@ + before@.subrange(contents@.len() as int, i as int),
            decreases before@.len() - i,
        {
            bytes.push(before[i]);
            assert(bytes@ =~= contents@ + before@.subrange(contents@.len() as int, i + 1));
            i += 1;
        }
        assert(bytes@ =~= Self::written(before@, contents@));
        let resource = Buffer { label, usage, contents: bytes };
        self.bind_group.entries.insert(0, BindGroupEntry { binding, resource });
        assert(self.bind_group.entries@ =~= old(self).bind_group.entries@.update(
            0,
            self.bind_group.entries@[0],
        ));
        true
    }

    /// The command that binds the camera at group `idx`.
    pub open spec fn bind_commands<'a>(&'a self, idx: u32) -> Seq<Command<'a>> {
        seq![Command::SetBindGroup { index: idx, bind_group: &self.bind_group }]
    }

    /// Binds the camera at group `idx`.
    pub fn bind_to_pass<'a>(&'a self, idx: u32, render_pass: &mut RenderPass<'a>)
        ensures
            final(render_pass).target() == old(render_pass).target(),
            final(render_pass).commands@ == old(render_pass).commands@ + self.bind_commands(idx),
    {
        render_pass.set_bind_group(idx, &self.bind_group);
        assert(render_pass.commands@ =~= old(render_pass).commands@ + self.bind_commands(idx));
    }
}

/// Copies the bytes of a slice.
pub fn copy_bytes(bytes: &[u8]) -> (copy: Vec<u8>)
    ensures
        copy@ == bytes@,
{
    let mut copy: Vec<u8> = Vec::new();
    let mut i: usize = 0;
    while i < bytes.len()
        invariant
            i <= bytes@.len(),
            copy@ == bytes@.take(i as int),
        decreases bytes@.len() - i,
    {
        copy.push(bytes[i]);
        assert(copy@ =~= bytes@.take(i + 1));
        i += 1;
    }
    assert(copy@ =~= bytes@);
    copy
}

/// Binding the camera into something that records.
pub trait CameraRender<'a>: Recorder<'a> {
    /// Binds the camera at group `idx`.
    fn bind_camera(&mut self, idx: u32, camera: &'a CameraBind)
        ensures
            final(self).same_target(old(self)),
            final(self).recorded() == old(self).recorded() + camera.bind_commands(idx),
    ;
}

impl<'a> CameraRender<'a> for RenderPass<'a> {
    fn bind_camera(&mut self, idx: u32, camera: &'a CameraBind) {
        camera.bind_to_pass(idx, self);
    }
}

} // verus!
