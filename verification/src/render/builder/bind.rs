//! Bind-group layouts of a single uniform buffer.

use vstd::prelude::*;

use crate::render::gpu::{
    uniform_entry, BindGroupLayout, BindGroupLayoutEntry, BindingType, BufferBindingType,
    ShaderStages,
};

verus! {

/// The parameters of a bind-group layout that holds one uniform buffer.
#[derive(Clone, Copy, Debug)]
pub struct BindGroupLayoutBuilder {
    pub label: Option<&'static str>,
    pub binding_location: u32,
    pub visibility: ShaderStages,
}

impl BindGroupLayoutBuilder {
    /// The layout: one whole uniform buffer at the binding location, seen by
    /// the given stages.
    pub fn into_bind_group_layout(&self) -> (layout: BindGroupLayout)
        ensures
            layout.label == self.label,
            layout.entries@ == seq![uniform_entry(self.binding_location, self.visibility)],
    {
        let mut entries: Vec<BindGroupLayoutEntry> = Vec::new();
        entries.push(
            BindGroupLayoutEntry {
                binding: self.binding_location,
                visibility: self.visibility,
                count: None,
                ty: BindingType::Buffer {
                    ty: BufferBindingType::Uniform,
                    has_dynamic_offset: false,
                    min_binding_size: None,
                },
            },
        );
        assert(entries@ =~= seq![uniform_entry(self.binding_location, self.visibility)]);
        BindGroupLayout { label: self.label, entries }
    }
}

} // verus!
