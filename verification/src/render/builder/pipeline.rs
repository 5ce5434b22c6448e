//! Render pipelines and their layouts.

use vstd::prelude::*;

use crate::render::gpu::{
    BindGroupLayout, BlendComponent, BlendState, ColorTargetState, ColorWrites, CompareFunction,
    DepthStencilState, Face, FragmentState, FrontFace, MultisampleState, PipelineLayout,
    PolygonMode, PrimitiveState, PrimitiveTopology, RenderPipeline, ShaderModule,
    SurfaceConfiguration, TextureFormat, VertexBufferLayout, VertexState,
};

verus! {

/// The parameters of a render pipeline.
#[derive(Debug)]
pub struct PipelineBuilder {
    pub pipeline_layout: Option<PipelineLayout>,
    pub depth_format: Option<TextureFormat>,
    pub vertex_layouts: Vec<VertexBufferLayout>,
    pub shader_module: ShaderModule,
    pub label: Option<&'static str>,
    pub fragment: bool,
}

/// The parameters of a pipeline layout.
#[derive(Debug)]
pub struct PipelineLayoutBuilder {
    pub label: Option<&'static str>,
    pub bind_group_layouts: Vec<BindGroupLayout>,
}

/// How every pipeline assembles and rasterises: lists of triangles, front
/// faces wound counter-clockwise, back faces culled, filled, and depth not
/// clipped.
pub open spec fn standard_primitive() -> PrimitiveState {
    PrimitiveState {
        topology: PrimitiveTopology::TriangleList,
        strip_index_format: None,
        front_face: FrontFace::Ccw,
        cull_mode: Some(Face::Back),
        polygon_mode: PolygonMode::Fill,
        conservative: false,
        unclipped_depth: true,
    }
}

/// One sample a pixel, every sample written.
pub open spec fn standard_multisample() -> MultisampleState {
    MultisampleState { count: 1, mask: u64::MAX, alpha_to_coverage_enabled: false }
}

/// The colour target of every pipeline: the surface's format, the source
/// replacing what is there, every channel written.
pub open spec fn standard_target(format: TextureFormat) -> ColorTargetState {
    ColorTargetState {
        format,
        blend: Some(
            BlendState {
                color: BlendComponent::spec_replace(),
                alpha: BlendComponent::spec_replace(),
            },
        ),
        write_mask: ColorWrites::spec_all(),
    }
}

/// The depth test for a depth buffer of `format`: depths are written, and the
/// nearer fragment wins.
pub open spec fn standard_depth(format: TextureFormat) -> DepthStencilState {
    DepthStencilState { format, depth_write_enabled: true, depth_compare: CompareFunction::Less }
}

impl PipelineBuilder {
    /// `pipeline` is the pipeline of these parameters for a surface configured
    /// as `config`: the vertex stage enters at `vs_main`; the fragment stage,
    /// if asked for, enters at `fs_main` and writes one target of the
    /// surface's format; there is a depth test exactly if a depth format was
    /// given; the rest is fixed.
    pub open spec fn builds(self, config: &SurfaceConfiguration, pipeline: RenderPipeline) -> bool {
        &&& pipeline.label == self.label
        &&& pipeline.layout == self.pipeline_layout
        &&& pipeline.module == self.shader_module
        &&& pipeline.vertex.entry_point@ == "vs_main"@
        &&& pipeline.vertex.buffers == self.vertex_layouts
        &&& if self.fragment {
            &&& pipeline.fragment is Some
            &&& pipeline.fragment->0.entry_point@ == "fs_main"@
            &&& pipeline.fragment->0.targets@ == seq![Some(standard_target(config.format))]
        } else {
            pipeline.fragment is None
        }
        &&& pipeline.primitive == standard_primitive()
        &&& pipeline.depth_stencil == match self.depth_format {
            Some(format) => Some(standard_depth(format)),
            None => None,
        }
        &&& pipeline.multisample == standard_multisample()
        &&& pipeline.multiview is None
    }

    /// Describes the pipeline for a surface configured as `config`.
    pub fn into_pipeline(self, config: &SurfaceConfiguration) -> (pipeline: RenderPipeline)
        ensures
            self.builds(config, pipeline),
    {
        let fragment = if self.fragment {
            let mut targets: Vec<Option<ColorTargetState>> = Vec::new();
            targets.push(
                Some(
                    ColorTargetState {
                        format: config.format,
                        blend: Some(
                            BlendState {
                                color: BlendComponent::replace(),
                                alpha: BlendComponent::replace(),
                            },
                        ),
                        write_mask: ColorWrites::all(),
                    },
                ),
            );
            assert(targets@ =~= seq![Some(standard_target(config.format))]);
            Some(FragmentState { entry_point: "fs_main", targets })
        } else {
            None
        };
        let depth_stencil = match self.depth_format {
            Some(format) => Some(
                DepthStencilState {
                    format,
                    depth_write_enabled: true,
                    depth_compare: CompareFunction::Less,
                },
            ),
            None => None,
        };
        RenderPipeline {
            label: self.label,
            layout: self.pipeline_layout,
            module: self.shader_module,
            vertex: VertexState { entry_point: "vs_main", buffers: self.vertex_layouts },
            fragment,
            primitive: PrimitiveState {
                topology: PrimitiveTopology::TriangleList,
                strip_index_format: None,
                front_face: FrontFace::Ccw,
                cull_mode: Some(Face::Back),
                polygon_mode: PolygonMode::Fill,
                conservative: false,
                unclipped_depth: true,
            },
            depth_stencil,
            multisample: MultisampleState {
                count: 1,
                mask: u64::MAX,
                alpha_to_coverage_enabled: false,
            },
            multiview: None,
        }
    }
}

impl PipelineLayoutBuilder {
    /// The pipeline layout: the bind-group layouts in the order given, which
    /// is the order of their group indices.
    pub fn into_pipeline_layout(self) -> (layout: PipelineLayout)
        ensures
            layout.label == self.label,
            layout.bind_group_layouts == self.bind_group_layouts,
    {
        PipelineLayout { label: self.label, bind_group_layouts: self.bind_group_layouts }
    }
}

} // verus!
