//! Plain values that stand for what the graphics device holds, and the render
//! pass as the list of commands recorded into it.
//!
//! Nothing here talks to a device. A resident object says what is to be
//! created; whoever owns the device creates it and replays the pass.

use core::ops::Range;
use vstd::prelude::*;

use crate::render::color::Color;

verus! {

/// What a buffer may be used for.
#[derive(Clone, Copy, Debug, PartialEq, Eq, Structural)]
pub struct BufferUsages {
    pub vertex: bool,
    pub index: bool,
    pub uniform: bool,
    pub copy_dst: bool,
}

impl BufferUsages {
    /// A buffer of per-vertex or per-instance data.
    pub open spec fn spec_vertex() -> BufferUsages {
        BufferUsages { vertex: true, index: false, uniform: false, copy_dst: false }
    }

    /// A buffer of indices.
    pub open spec fn spec_index() -> BufferUsages {
        BufferUsages { vertex: false, index: true, uniform: false, copy_dst: false }
    }

    /// A uniform buffer that can be written again after creation.
    pub open spec fn spec_uniform() -> BufferUsages {
        BufferUsages { vertex: false, index: false, uniform: true, copy_dst: true }
    }

    #[verifier::when_used_as_spec(spec_vertex)]
    pub fn vertex() -> (usage: BufferUsages)
        ensures
            usage == Self::spec_vertex(),
    {
        BufferUsages { vertex: true, index: false, uniform: false, copy_dst: false }
    }

    #[verifier::when_used_as_spec(spec_index)]
    pub fn index() -> (usage: BufferUsages)
        ensures
            usage == Self::spec_index(),
    {
        BufferUsages { vertex: false, index: true, uniform: false, copy_dst: false }
    }

    #[verifier::when_used_as_spec(spec_uniform)]
    pub fn uniform() -> (usage: BufferUsages)
        ensures
            usage == Self::spec_uniform(),
    {
        BufferUsages { vertex: false, index: false, uniform: true, copy_dst: true }
    }
}

/// A buffer created with initial contents.
#[derive(Debug, PartialEq, Eq)]
pub struct Buffer {
    pub label: &'static str,
    pub usage: BufferUsages,
    pub contents: Vec<u8>,
}

/// The type of one vertex attribute as a shader sees it.
#[derive(Clone, Copy, Debug, PartialEq, Eq, Structural)]
pub enum VertexFormat {
    Float32,
    Float32x2,
    Float32x3,
    Float32x4,
}

impl VertexFormat {
    /// The bytes that one attribute of this format takes.
    pub open spec fn spec_size(self) -> u64 {
        match self {
            VertexFormat::Float32 => 4,
            VertexFormat::Float32x2 => 8,
            VertexFormat::Float32x3 => 12,
            VertexFormat::Float32x4 => 16,
        }
    }

    #[verifier::when_used_as_spec(spec_size)]
    pub fn size(self) -> (bytes: u64)
        ensures
            bytes == self.spec_size(),
    {
        match self {
            VertexFormat::Float32 => 4,
            VertexFormat::Float32x2 => 8,
            VertexFormat::Float32x3 => 12,
            VertexFormat::Float32x4 => 16,
        }
    }
}

/// Whether a vertex stream advances with each vertex or with each instance.
#[derive(Clone, Copy, Debug, PartialEq, Eq, Structural)]
pub enum VertexStepMode {
    Vertex,
    Instance,
}

/// Where one attribute lies within an element of a vertex stream.
#[derive(Clone, Copy, Debug, PartialEq, Eq, Structural)]
pub struct VertexAttribute {
    pub format: VertexFormat,
    pub offset: u64,
    pub shader_location: u32,
}

/// The binary layout of one vertex stream.
#[derive(Debug, PartialEq, Eq)]
pub struct VertexBufferLayout {
    pub array_stride: u64,
    pub step_mode: VertexStepMode,
    pub attributes: Vec<VertexAttribute>,
}

/// The width of the indices in an index buffer.
#[derive(Clone, Copy, Debug, PartialEq, Eq, Structural)]
pub enum IndexFormat {
    Uint16,
    Uint32,
}

/// The size of the blocks of an adaptive scalable compression format, in
/// texels.
#[derive(Clone, Copy, Debug, PartialEq, Eq, Structural)]
pub enum AstcBlock {
    B4x4,
    B5x4,
    B5x5,
    B6x5,
    B6x6,
    B8x5,
    B8x6,
    B8x8,
    B10x5,
    B10x6,
    B10x8,
    B10x10,
    B12x10,
    B12x12,
}

/// How the channels of an adaptive scalable compression format are read.
#[derive(Clone, Copy, Debug, PartialEq, Eq, Structural)]
pub enum AstcChannel {
    Unorm,
    UnormSrgb,
    Hdr,
}

/// The format of the texels of a texture: every format that a device knows,
/// so that a surface can report none that cannot be written down.
#[derive(Clone, Copy, Debug, PartialEq, Eq, Structural)]
pub enum TextureFormat {
    // One component of eight bits.
    R8Unorm,
    R8Snorm,
    R8Uint,
    R8Sint,
    // Sixteen bits a texel.
    R16Uint,
    R16Sint,
    R16Unorm,
    R16Snorm,
    R16Float,
    Rg8Unorm,
    Rg8Snorm,
    Rg8Uint,
    Rg8Sint,
    // Thirty-two bits a texel.
    R32Uint,
    R32Sint,
    R32Float,
    Rg16Uint,
    Rg16Sint,
    Rg16Unorm,
    Rg16Snorm,
    Rg16Float,
    Rgba8Unorm,
    Rgba8UnormSrgb,
    Rgba8Snorm,
    Rgba8Uint,
    Rgba8Sint,
    Bgra8Unorm,
    Bgra8UnormSrgb,
    // Thirty-two bits a texel, packed.
    Rgb9e5Ufloat,
    Rgb10a2Unorm,
    Rg11b10Float,
    // Sixty-four bits a texel.
    Rg32Uint,
    Rg32Sint,
    Rg32Float,
    Rgba16Uint,
    Rgba16Sint,
    Rgba16Unorm,
    Rgba16Snorm,
    Rgba16Float,
    // A hundred and twenty-eight bits a texel.
    Rgba32Uint,
    Rgba32Sint,
    Rgba32Float,
    // Depth and stencil.
    Stencil8,
    Depth16Unorm,
    Depth24Plus,
    Depth24PlusStencil8,
    Depth32Float,
    Depth32FloatStencil8,
    // Block compression.
    Bc1RgbaUnorm,
    Bc1RgbaUnormSrgb,
    Bc2RgbaUnorm,
    Bc2RgbaUnormSrgb,
    Bc3RgbaUnorm,
    Bc3RgbaUnormSrgb,
    Bc4RUnorm,
    Bc4RSnorm,
    Bc5RgUnorm,
    Bc5RgSnorm,
    Bc6hRgbUfloat,
    Bc6hRgbSfloat,
    Bc7RgbaUnorm,
    Bc7RgbaUnormSrgb,
    // Ericsson compression.
    Etc2Rgb8Unorm,
    Etc2Rgb8UnormSrgb,
    Etc2Rgb8A1Unorm,
    Etc2Rgb8A1UnormSrgb,
    Etc2Rgba8Unorm,
    Etc2Rgba8UnormSrgb,
    EacR11Unorm,
    EacR11Snorm,
    EacRg11Unorm,
    EacRg11Snorm,
    // Adaptive scalable compression.
    Astc { block: AstcBlock, channel: AstcChannel },
}

impl TextureFormat {
    /// Whether colours are stored with the sRGB transfer function: they are in
    /// the formats that say so in their names, and in the compressed formats
    /// whose channels are read that way.
    pub open spec fn spec_is_srgb(self) -> bool {
        match self {
            TextureFormat::Rgba8UnormSrgb => true,
            TextureFormat::Bgra8UnormSrgb => true,
            TextureFormat::Bc1RgbaUnormSrgb => true,
            TextureFormat::Bc2RgbaUnormSrgb => true,
            TextureFormat::Bc3RgbaUnormSrgb => true,
            TextureFormat::Bc7RgbaUnormSrgb => true,
            TextureFormat::Etc2Rgb8UnormSrgb => true,
            TextureFormat::Etc2Rgb8A1UnormSrgb => true,
            TextureFormat::Etc2Rgba8UnormSrgb => true,
            TextureFormat::Astc { block, channel } => channel == AstcChannel::UnormSrgb,
            _ => false,
        }
    }

    #[verifier::when_used_as_spec(spec_is_srgb)]
    pub fn is_srgb(self) -> (srgb: bool)
        ensures
            srgb == self.spec_is_srgb(),
    {
        match self {
            TextureFormat::Rgba8UnormSrgb => true,
            TextureFormat::Bgra8UnormSrgb => true,
            TextureFormat::Bc1RgbaUnormSrgb => true,
            TextureFormat::Bc2RgbaUnormSrgb => true,
            TextureFormat::Bc3RgbaUnormSrgb => true,
            TextureFormat::Bc7RgbaUnormSrgb => true,
            TextureFormat::Etc2Rgb8UnormSrgb => true,
            TextureFormat::Etc2Rgb8A1UnormSrgb => true,
            TextureFormat::Etc2Rgba8UnormSrgb => true,
            TextureFormat::Astc { block: _, channel } => match channel {
                AstcChannel::UnormSrgb => true,
                _ => false,
            },
            _ => false,
        }
    }
}

/// How the surface that frames are presented on is configured.
#[derive(Clone, Copy, Debug, PartialEq, Eq, Structural)]
pub struct SurfaceConfiguration {
    pub format: TextureFormat,
    pub width: u32,
    pub height: u32,
}

/// The shader stages that can see a binding.
#[derive(Clone, Copy, Debug, PartialEq, Eq, Structural)]
pub struct ShaderStages {
    pub vertex: bool,
    pub fragment: bool,
    pub compute: bool,
}

impl ShaderStages {
    /// The vertex stage alone.
    pub open spec fn spec_vertex() -> ShaderStages {
        ShaderStages { vertex: true, fragment: false, compute: false }
    }

    /// The fragment stage alone.
    pub open spec fn spec_fragment() -> ShaderStages {
        ShaderStages { vertex: false, fragment: true, compute: false }
    }

    #[verifier::when_used_as_spec(spec_vertex)]
    pub fn vertex() -> (stages: ShaderStages)
        ensures
            stages == Self::spec_vertex(),
    {
        ShaderStages { vertex: true, fragment: false, compute: false }
    }

    #[verifier::when_used_as_spec(spec_fragment)]
    pub fn fragment() -> (stages: ShaderStages)
        ensures
            stages == Self::spec_fragment(),
    {
        ShaderStages { vertex: false, fragment: true, compute: false }
    }
}

/// How a shader reads a bound buffer.
#[derive(Clone, Copy, Debug, PartialEq, Eq, Structural)]
pub enum BufferBindingType {
    Uniform,
    Storage { read_only: bool },
}

/// What is bound at a binding.
#[derive(Clone, Copy, Debug, PartialEq, Eq, Structural)]
pub enum BindingType {
    Buffer { ty: BufferBindingType, has_dynamic_offset: bool, min_binding_size: Option<u64> },
}

/// One binding of a bind-group layout.
#[derive(Clone, Copy, Debug, PartialEq, Eq, Structural)]
pub struct BindGroupLayoutEntry {
    pub binding: u32,
    pub visibility: ShaderStages,
    pub ty: BindingType,
    pub count: Option<u32>,
}

/// The binding of one whole uniform buffer at `binding`, seen by `visibility`.
pub open spec fn uniform_entry(binding: u32, visibility: ShaderStages) -> BindGroupLayoutEntry {
    BindGroupLayoutEntry {
        binding,
        visibility,
        ty: BindingType::Buffer {
            ty: BufferBindingType::Uniform,
            has_dynamic_offset: false,
            min_binding_size: None,
        },
        count: None,
    }
}

/// The bindings that a shader expects of a bind group.
#[derive(Debug, PartialEq, Eq)]
pub struct BindGroupLayout {
    pub label: Option<&'static str>,
    pub entries: Vec<BindGroupLayoutEntry>,
}

impl BindGroupLayout {
    /// A layout with the same label and the same entries.
    pub fn duplicate(&self) -> (copy: BindGroupLayout)
        ensures
            copy.label == self.label,
            copy.entries@ == self.entries@,
    {
        let mut entries: Vec<BindGroupLayoutEntry> = Vec::new();
        let mut i: usize = 0;
        while i < self.entries.len()
            invariant
                i <= self.entries@.len(),
                entries@ == self.entries@.take(i as int),
            decreases self.entries@.len() - i,
        {
            entries.push(self.entries[i]);
            assert(entries@ =~= self.entries@.take(i + 1));
            i += 1;
        }
        assert(entries@ =~= self.entries@);
        BindGroupLayout { label: self.label, entries }
    }
}

/// One buffer bound whole at a binding.
#[derive(Debug, PartialEq, Eq)]
pub struct BindGroupEntry {
    pub binding: u32,
    pub resource: Buffer,
}

/// Buffers wired to the bindings of a layout.
#[derive(Debug, PartialEq, Eq)]
pub struct BindGroup {
    pub label: Option<&'static str>,
    pub layout: BindGroupLayout,
    pub entries: Vec<BindGroupEntry>,
}

/// The bind-group layouts of a pipeline, in the order of their group indices.
#[derive(Debug, PartialEq, Eq)]
pub struct PipelineLayout {
    pub label: Option<&'static str>,
    pub bind_group_layouts: Vec<BindGroupLayout>,
}

/// A shader module. `source` names the shader text that it is compiled from;
/// the text itself is the device owner's business.
#[derive(Clone, Copy, Debug, PartialEq, Eq)]
pub struct ShaderModule {
    pub label: Option<&'static str>,
    pub source: &'static str,
}

/// The vertex stage of a pipeline.
#[derive(Debug, PartialEq, Eq)]
pub struct VertexState {
    pub entry_point: &'static str,
    pub buffers: Vec<VertexBufferLayout>,
}

/// A factor of the blend equation.
#[derive(Clone, Copy, Debug, PartialEq, Eq, Structural)]
pub enum BlendFactor {
    Zero,
    One,
    SrcAlpha,
    OneMinusSrcAlpha,
}

/// The operation of the blend equation.
#[derive(Clone, Copy, Debug, PartialEq, Eq, Structural)]
pub enum BlendOperation {
    Add,
    Subtract,
}

/// How one of colour and alpha is blended.
#[derive(Clone, Copy, Debug, PartialEq, Eq, Structural)]
pub struct BlendComponent {
    pub src_factor: BlendFactor,
    pub dst_factor: BlendFactor,
    pub operation: BlendOperation,
}

impl BlendComponent {
    /// The source replaces the destination.
    pub open spec fn spec_replace() -> BlendComponent {
        BlendComponent {
            src_factor: BlendFactor::One,
            dst_factor: BlendFactor::Zero,
            operation: BlendOperation::Add,
        }
    }

    #[verifier::when_used_as_spec(spec_replace)]
    pub fn replace() -> (component: BlendComponent)
        ensures
            component == Self::spec_replace(),
    {
        BlendComponent {
            src_factor: BlendFactor::One,
            dst_factor: BlendFactor::Zero,
            operation: BlendOperation::Add,
        }
    }
}

/// How colour and alpha are blended.
#[derive(Clone, Copy, Debug, PartialEq, Eq, Structural)]
pub struct BlendState {
    pub color: BlendComponent,
    pub alpha: BlendComponent,
}

/// The channels that a pipeline writes.
#[derive(Clone, Copy, Debug, PartialEq, Eq, Structural)]
pub struct ColorWrites {
    pub red: bool,
    pub green: bool,
    pub blue: bool,
    pub alpha: bool,
}

impl ColorWrites {
    /// Every channel.
    pub open spec fn spec_all() -> ColorWrites {
        ColorWrites { red: true, green: true, blue: true, alpha: true }
    }

    #[verifier::when_used_as_spec(spec_all)]
    pub fn all() -> (writes: ColorWrites)
        ensures
            writes == Self::spec_all(),
    {
        ColorWrites { red: true, green: true, blue: true, alpha: true }
    }
}

/// One colour target of a pipeline.
#[derive(Clone, Copy, Debug, PartialEq, Eq, Structural)]
pub struct ColorTargetState {
    pub format: TextureFormat,
    pub blend: Option<BlendState>,
    pub write_mask: ColorWrites,
}

/// The fragment stage of a pipeline.
#[derive(Debug, PartialEq, Eq)]
pub struct FragmentState {
    pub entry_point: &'static str,
    pub targets: Vec<Option<ColorTargetState>>,
}

/// How vertices are assembled into primitives.
#[derive(Clone, Copy, Debug, PartialEq, Eq, Structural)]
pub enum PrimitiveTopology {
    PointList,
    LineList,
    LineStrip,
    TriangleList,
    TriangleStrip,
}

/// The winding of a front face.
#[derive(Clone, Copy, Debug, PartialEq, Eq, Structural)]
pub enum FrontFace {
    Ccw,
    Cw,
}

/// A side of a triangle.
#[derive(Clone, Copy, Debug, PartialEq, Eq, Structural)]
pub enum Face {
    Front,
    Back,
}

/// How polygons are filled.
#[derive(Clone, Copy, Debug, PartialEq, Eq, Structural)]
pub enum PolygonMode {
    Fill,
    Line,
    Point,
}

/// The fixed-function state of primitive assembly and rasterisation.
#[derive(Clone, Copy, Debug, PartialEq, Eq, Structural)]
pub struct PrimitiveState {
    pub topology: PrimitiveTopology,
    pub strip_index_format: Option<IndexFormat>,
    pub front_face: FrontFace,
    pub cull_mode: Option<Face>,
    pub polygon_mode: PolygonMode,
    pub conservative: bool,
    pub unclipped_depth: bool,
}

/// A comparison of a new depth with the stored one.
#[derive(Clone, Copy, Debug, PartialEq, Eq, Structural)]
pub enum CompareFunction {
    Never,
    Less,
    Equal,
    LessEqual,
    Greater,
    NotEqual,
    GreaterEqual,
    Always,
}

/// The depth test of a pipeline. Stencil and depth bias keep their defaults.
#[derive(Clone, Copy, Debug, PartialEq, Eq, Structural)]
pub struct DepthStencilState {
    pub format: TextureFormat,
    pub depth_write_enabled: bool,
    pub depth_compare: CompareFunction,
}

/// The multisampling of a pipeline.
#[derive(Clone, Copy, Debug, PartialEq, Eq, Structural)]
pub struct MultisampleState {
    pub count: u32,
    pub mask: u64,
    pub alpha_to_coverage_enabled: bool,
}

/// A render pipeline: the shader stages and the fixed-function state around them.
#[derive(Debug, PartialEq, Eq)]
pub struct RenderPipeline {
    pub label: Option<&'static str>,
    pub layout: Option<PipelineLayout>,
    pub module: ShaderModule,
    pub vertex: VertexState,
    pub fragment: Option<FragmentState>,
    pub primitive: PrimitiveState,
    pub depth_stencil: Option<DepthStencilState>,
    pub multisample: MultisampleState,
    pub multiview: Option<u32>,
}

/// A view of a texture that a pass renders to. `id` tells the views of one
/// frame apart.
#[derive(Clone, Copy, Debug, PartialEq, Eq, Structural)]
pub struct TextureView {
    pub id: u32,
}

/// What happens to a colour attachment when a pass begins.
#[derive(Clone, Copy, Debug, PartialEq, Eq, Structural)]
pub enum LoadOp {
    Clear(Color),
    Load,
}

/// What happens to a colour attachment when a pass begins and when it ends.
#[derive(Clone, Copy, Debug, PartialEq, Eq, Structural)]
pub struct Operations {
    pub load: LoadOp,
    pub store: bool,
}

/// What happens to the depth or the stencil of an attachment when a pass
/// begins. A cleared depth is a single-precision value held as its bit
/// pattern; a cleared stencil is the value itself.
#[derive(Clone, Copy, Debug, PartialEq, Eq, Structural)]
pub enum ValueLoadOp {
    Clear(u32),
    Load,
}

/// What happens to the depth or the stencil of an attachment when a pass
/// begins and when it ends.
#[derive(Clone, Copy, Debug, PartialEq, Eq, Structural)]
pub struct ValueOperations {
    pub load: ValueLoadOp,
    pub store: bool,
}

/// A colour attachment of a render pass.
#[derive(Clone, Copy, Debug, PartialEq, Eq)]
pub struct RenderPassColorAttachment<'a> {
    pub view: &'a TextureView,
    pub resolve_target: Option<&'a TextureView>,
    pub ops: Operations,
}

/// The depth-stencil attachment of a render pass.
#[derive(Clone, Copy, Debug, PartialEq, Eq)]
pub struct RenderPassDepthStencilAttachment<'a> {
    pub view: &'a TextureView,
    pub depth_ops: Option<ValueOperations>,
    pub stencil_ops: Option<ValueOperations>,
}

/// One command recorded into a render pass.
#[derive(Debug, PartialEq, Eq)]
pub enum Command<'a> {
    SetPipeline { pipeline: &'a RenderPipeline },
    SetBindGroup { index: u32, bind_group: &'a BindGroup },
    SetVertexBuffer { slot: u32, buffer: &'a Buffer },
    SetIndexBuffer { buffer: &'a Buffer, format: IndexFormat },
    Draw { vertices: Range<u32>, instances: Range<u32> },
    DrawIndexed { indices: Range<u32>, base_vertex: i32, instances: Range<u32> },
}

/// A render pass under construction: the commands recorded so far, in order.
#[derive(Debug)]
pub struct RenderPass<'a> {
    pub label: Option<&'static str>,
    pub color_attachments: &'a [Option<RenderPassColorAttachment<'a>>],
    pub depth_stencil_attachment: Option<RenderPassDepthStencilAttachment<'a>>,
    pub commands: Vec<Command<'a>>,
}

impl<'a> RenderPass<'a> {
    /// What the pass was begun with: its label and its attachments.
    pub open spec fn target(&self) -> (
        Option<&'static str>,
        Seq<Option<RenderPassColorAttachment<'a>>>,
        Option<RenderPassDepthStencilAttachment<'a>>,
    ) {
        (self.label, self.color_attachments@, self.depth_stencil_attachment)
    }

    /// Makes `pipeline` the pipeline of the draws that follow.
    pub fn set_pipeline(&mut self, pipeline: &'a RenderPipeline)
        ensures
            final(self).target() == old(self).target(),
            final(self).commands@ == old(self).commands@.push(Command::SetPipeline { pipeline }),
    {
        self.commands.push(Command::SetPipeline { pipeline });
    }

    /// Binds `bind_group` at group `index`.
    pub fn set_bind_group(&mut self, index: u32, bind_group: &'a BindGroup)
        ensures
            final(self).target() == old(self).target(),
            final(self).commands@ == old(self).commands@.push(
                Command::SetBindGroup { index, bind_group },
            ),
    {
        self.commands.push(Command::SetBindGroup { index, bind_group });
    }

    /// Binds the whole of `buffer` as the vertex stream of `slot`.
    pub fn set_vertex_buffer(&mut self, slot: u32, buffer: &'a Buffer)
        ensures
            final(self).target() == old(self).target(),
            final(self).commands@ == old(self).commands@.push(
                Command::SetVertexBuffer { slot, buffer },
            ),
    {
        self.commands.push(Command::SetVertexBuffer { slot, buffer });
    }

    /// Binds the whole of `buffer` as the index stream.
    pub fn set_index_buffer(&mut self, buffer: &'a Buffer, format: IndexFormat)
        ensures
            final(self).target() == old(self).target(),
            final(self).commands@ == old(self).commands@.push(
                Command::SetIndexBuffer { buffer, format },
            ),
    {
        self.commands.push(Command::SetIndexBuffer { buffer, format });
    }

    /// Draws `vertices` of the bound vertex streams, once for each of `instances`.
    pub fn draw(&mut self, vertices: Range<u32>, instances: Range<u32>)
        ensures
            final(self).target() == old(self).target(),
            final(self).commands@ == old(self).commands@.push(
                Command::Draw { vertices, instances },
            ),
    {
        self.commands.push(Command::Draw { vertices, instances });
    }

    /// Draws the vertices that `indices` of the bound index stream select,
    /// once for each of `instances`.
    pub fn draw_indexed(&mut self, indices: Range<u32>, base_vertex: i32, instances: Range<u32>)
        ensures
            final(self).target() == old(self).target(),
            final(self).commands@ == old(self).commands@.push(
                Command::DrawIndexed { indices, base_vertex, instances },
            ),
    {
        self.commands.push(Command::DrawIndexed { indices, base_vertex, instances });
    }
}

/// Something that commands are recorded into.
pub trait Recorder<'a> where Self: Sized {
    /// The commands recorded so far, in order.
    spec fn recorded(&self) -> Seq<Command<'a>>;

    /// Whether this and `other` differ at most in what is recorded in them.
    spec fn same_target(&self, other: &Self) -> bool;
}

impl<'a> Recorder<'a> for RenderPass<'a> {
    open spec fn recorded(&self) -> Seq<Command<'a>> {
        self.commands@
    }

    open spec fn same_target(&self, other: &Self) -> bool {
        self.target() == other.target()
    }
}

} // verus!
