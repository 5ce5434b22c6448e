//! The material of a single flat colour.

use vstd::prelude::*;

use crate::render::builder::pipeline::{
    standard_multisample, standard_primitive, standard_target, PipelineBuilder,
};
use crate::render::bytes::{is_native_image, words_to_bytes};
use crate::render::color::Color;
use crate::render::gpu::{
    uniform_entry, BindGroup, BindGroupEntry, BindGroupLayout, BindGroupLayoutEntry, BindingType,
    Buffer, BufferBindingType, BufferUsages, Command, PipelineLayout, RenderPass, RenderPipeline,
    ShaderModule, ShaderStages, SurfaceConfiguration, VertexBufferLayout,
};
use crate::render::raw::{IntoRawBinder, RawBinder, RawParams};
use crate::render::vertex::{TransformRaw, Vertex, VertexDescriptor};

verus! {

/// A material that paints everything in one colour.
#[derive(Clone, Copy, Debug, PartialEq, Eq)]
pub struct StaticColorMaterial {
    pub color: Color,
}

/// The resident form of the flat-colour material: its pipeline, and the bind
/// group that carries the colour.
#[derive(Debug, PartialEq, Eq)]
pub struct RawStaticColorMaterial {
    pub pipeline: RenderPipeline,
    pub bind_group: BindGroup,
}

/// `layout` is the material's layout: one whole uniform buffer at binding 0,
/// seen by the fragment stage.
pub open spec fn is_color_layout(layout: BindGroupLayout) -> bool {
    &&& layout.label matches Some(label) && label@ == "static-color-layout"@
    &&& layout.entries@ == seq![uniform_entry(0, ShaderStages::spec_fragment())]
}

/// `bind_group` carries `color`: it has the material's layout, and at binding
/// 0 a new uniform buffer with the memory image of the four channels.
pub open spec fn is_color_bind_group(bind_group: BindGroup, color: Color) -> bool {
    &&& bind_group.label matches Some(label) && label@ == "static-color-bind"@
    &&& is_color_layout(bind_group.layout)
    &&& bind_group.entries@.len() == 1
    &&& bind_group.entries@[0].binding == 0
    &&& bind_group.entries@[0].resource.label@ == "voxel_chunk_vertices"@
    &&& bind_group.entries@[0].resource.usage == BufferUsages::spec_uniform()
    &&& is_native_image(bind_group.entries@[0].resource.contents@, color.words())
}

/// `layout` is the pipeline layout of the material: its own bind-group layout
/// at group 0, then the camera's at group 1.
pub open spec fn is_color_pipeline_layout(layout: PipelineLayout, camera: BindGroupLayout) -> bool {
    &&& layout.label matches Some(label) && label@ == "Render Pipeline Layout"@
    &&& layout.bind_group_layouts@.len() == 2
    &&& is_color_layout(layout.bind_group_layouts@[0])
    &&& layout.bind_group_layouts@[1].label == camera.label
    &&& layout.bind_group_layouts@[1].entries@ == camera.entries@
}

/// `module` is the shader of the material.
pub open spec fn is_color_shader(module: ShaderModule) -> bool {
    &&& module.label matches Some(label) && label@ == "Shader"@
    &&& module.source@ == "shader.wgsl"@
}

/// `pipeline` is the pipeline of the material for a surface configured as
/// `config`: the material's pipeline layout and shader; a vertex stage that
/// enters at `vs_main` and reads a stream of vertices and after it a stream
/// of instance transforms; a fragment stage that enters at `fs_main` and
/// writes one target of the surface's format; lists of triangles with their
/// back faces culled; and no depth test.
pub open spec fn is_color_pipeline(
    pipeline: RenderPipeline,
    config: &SurfaceConfiguration,
    camera: BindGroupLayout,
) -> bool {
    &&& pipeline.label matches Some(label) && label@ == "tri"@
    &&& pipeline.layout is Some
    &&& is_color_pipeline_layout(pipeline.layout->0, camera)
    &&& is_color_shader(pipeline.module)
    &&& pipeline.vertex.entry_point@ == "vs_main"@
    &&& pipeline.vertex.buffers@.len() == 2
    &&& <Vertex as VertexDescriptor<2>>::describes(pipeline.vertex.buffers@[0])
    &&& <TransformRaw as VertexDescriptor<8>>::describes(pipeline.vertex.buffers@[1])
    &&& pipeline.fragment is Some
    &&& pipeline.fragment->0.entry_point@ == "fs_main"@
    &&& pipeline.fragment->0.targets@ == seq![Some(standard_target(config.format))]
    &&& pipeline.primitive == standard_primitive()
    &&& pipeline.depth_stencil is None
    &&& pipeline.multisample == standard_multisample()
    &&& pipeline.multiview is None
}

impl RawBinder for RawStaticColorMaterial {
    open spec fn bind_commands<'a>(&'a self, idx: u32) -> Seq<Command<'a>> {
        seq![
            Command::SetPipeline { pipeline: &self.pipeline },
            Command::SetBindGroup { index: idx, bind_group: &self.bind_group },
        ]
    }

    fn bind_to_pass<'a>(&'a self, idx: u32, render_pass: &mut RenderPass<'a>) {
        render_pass.set_pipeline(&self.pipeline);
        render_pass.set_bind_group(idx, &self.bind_group);
        assert(render_pass.commands@ =~= old(render_pass).commands@ + self.bind_commands(idx));
    }
}

impl IntoRawBinder for StaticColorMaterial {
    type RawBinder = RawStaticColorMaterial;

    /// The bind group carries the colour, and the pipeline is the material's
    /// pipeline for the surface, laid out with the camera's bind-group layout.
    open spec fn converts_to(&self, params: &RawParams, raw: &RawStaticColorMaterial) -> bool {
        &&& is_color_bind_group(raw.bind_group, self.color)
        &&& is_color_pipeline(
            raw.pipeline,
            params.config,
            params.raw_camera.bind_group_layout,
        )
    }

    fn into_raw(&self, params: &RawParams) -> (raw: RawStaticColorMaterial) {
        let config = params.config;

        let color_tab = self.color.to_rgba();
        let mut words: Vec<u32> = Vec::new();
        words.push(color_tab[0]);
        words.push(color_tab[1]);
        words.push(color_tab[2]);
        words.push(color_tab[3]);
        assert(words@ =~= self.color.words());
        let color_buffer = Buffer {
            label: "voxel_chunk_vertices",
            usage: BufferUsages::uniform(),
            contents: words_to_bytes(&words),
        };

        let bind_group_layout = RawStaticColorMaterial::create_bind_layout();
        let bind_group = RawStaticColorMaterial::create_bind_group(bind_group_layout, color_buffer);

        let mut bind_group_layouts: Vec<BindGroupLayout> = Vec::new();
        bind_group_layouts.push(RawStaticColorMaterial::create_bind_layout());
        bind_group_layouts.push(params.raw_camera.bind_group_layout.duplicate());
        let render_pipeline_layout = PipelineLayout {
            label: Some("Render Pipeline Layout"),
            bind_group_layouts,
        };

        let shader = ShaderModule { label: Some("Shader"), source: "shader.wgsl" };

        let mut vertex_layouts: Vec<VertexBufferLayout> = Vec::new();
        vertex_layouts.push(Vertex::descript());
        vertex_layouts.push(TransformRaw::descript());

        let builder = PipelineBuilder {
            pipeline_layout: Some(render_pipeline_layout),
            depth_format: None,
            vertex_layouts,
            shader_module: shader,
            label: Some("tri"),
            fragment: true,
        };
        let pipeline = builder.into_pipeline(config);

        RawStaticColorMaterial { pipeline, bind_group }
    }
}

impl RawStaticColorMaterial {
    /// Wires `buffer` to binding 0 of `layout`.
    fn create_bind_group(layout: BindGroupLayout, buffer: Buffer) -> (bind_group: BindGroup)
        ensures
            bind_group.label matches Some(label) && label@ == "static-color-bind"@,
            bind_group.layout == layout,
            bind_group.entries@ == seq![BindGroupEntry { binding: 0, resource: buffer }],
    {
        let mut entries: Vec<BindGroupEntry> = Vec::new();
        entries.push(BindGroupEntry { binding: 0, resource: buffer });
        assert(entries@ =~= seq![BindGroupEntry { binding: 0, resource: buffer }]);
        BindGroup { label: Some("static-color-bind"), layout, entries }
    }

    /// The material's bind-group layout.
    fn create_bind_layout() -> (layout: BindGroupLayout)
        ensures
            is_color_layout(layout),
    {
        let mut entries: Vec<BindGroupLayoutEntry> = Vec::new();
        entries.push(
            BindGroupLayoutEntry {
                binding: 0,
                visibility: ShaderStages::fragment(),
                ty: BindingType::Buffer {
                    ty: BufferBindingType::Uniform,
                    has_dynamic_offset: false,
                    min_binding_size: None,
                },
                count: None,
            },
        );
        assert(entries@ =~= seq![uniform_entry(0, ShaderStages::spec_fragment())]);
        BindGroupLayout { label: Some("static-color-layout"), entries }
    }
}

} // verus!
