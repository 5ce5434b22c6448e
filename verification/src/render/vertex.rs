//! Vertices and instance transforms: what they hold, how they are laid out in
//! a buffer, and how a pipeline is told of that layout.
//!
//! Every number is a single-precision value held as its IEEE 754 bit pattern.

use vstd::prelude::*;

use crate::render::gpu::{VertexAttribute, VertexBufferLayout, VertexFormat, VertexStepMode};

verus! {

/// One vertex of a mesh: a position and a normal, three components each.
#[derive(Clone, Copy, Debug, PartialEq, Eq)]
pub struct Vertex {
    pub position: [u32; 3],
    pub normal: [u32; 3],
}

/// One instance of a mesh as the device reads it: the model matrix and the
/// matrix for its normals, each as four columns of four components.
#[derive(Clone, Copy, Debug, PartialEq, Eq)]
pub struct TransformRaw {
    pub model: [[u32; 4]; 4],
    pub normal_matrix: [[u32; 4]; 4],
}

impl Vertex {
    /// The vertex as words: the position, then the normal.
    pub open spec fn words(self) -> Seq<u32> {
        self.position@ + self.normal@
    }
}

/// The sixteen components of a matrix, column after column.
pub open spec fn matrix_words(m: [[u32; 4]; 4]) -> Seq<u32> {
    Seq::new(16, |k: int| m@[k / 4]@[k % 4])
}

impl TransformRaw {
    /// The transform as words: the model matrix, then the normal matrix.
    pub open spec fn words(self) -> Seq<u32> {
        matrix_words(self.model) + matrix_words(self.normal_matrix)
    }
}

/// The words of a run of vertices, one vertex after another.
pub open spec fn vertex_words(vertices: Seq<Vertex>) -> Seq<u32> {
    Seq::new(6 * vertices.len(), |i: int| vertices[i / 6].words()[i % 6])
}

/// The words of a run of instance transforms, one after another.
pub open spec fn transform_words(transforms: Seq<TransformRaw>) -> Seq<u32> {
    Seq::new(32 * transforms.len(), |i: int| transforms[i / 32].words()[i % 32])
}

/// Lays the vertices out as words.
pub fn vertices_to_words(vertices: &Vec<Vertex>) -> (words: Vec<u32>)
    ensures
        words@ == vertex_words(vertices@),
{
    let mut words: Vec<u32> = Vec::new();
    let mut i: usize = 0;
    while i < vertices.len()
        invariant
            i <= vertices.len(),
            words@.len() == 6 * i,
            forall|j: int| 0 <= j < 6 * i ==> words@[j] == vertices@[j / 6].words()[j % 6],
        decreases vertices.len() - i,
    {
        let v = vertices[i];
        words.push(v.position[0]);
        words.push(v.position[1]);
        words.push(v.position[2]);
        words.push(v.normal[0]);
        words.push(v.normal[1]);
        words.push(v.normal[2]);
        i += 1;
    }
    assert(words@ =~= vertex_words(vertices@));
    words
}

/// Appends the sixteen components of `m`, column after column.
fn push_matrix(words: &mut Vec<u32>, m: &[[u32; 4]; 4])
    ensures
        final(words)@ == old(words)@ + matrix_words(*m),
{
    let mut k: usize = 0;
    while k < 16
        invariant
            k <= 16,
            words@.len() == old(words)@.len() + k,
            forall|j: int| 0 <= j < old(words)@.len() ==> words@[j] == old(words)@[j],
            forall|j: int| 0 <= j < k ==> words@[old(words)@.len() + j] == matrix_words(*m)[j],
        decreases 16 - k,
    {
        let column = &m[k / 4];
        words.push(column[k % 4]);
        k += 1;
    }
    assert(words@ =~= old(words)@ + matrix_words(*m));
}

/// Lays the instance transforms out as words.
pub fn transforms_to_words(transforms: &Vec<TransformRaw>) -> (words: Vec<u32>)
    ensures
        words@ == transform_words(transforms@),
{
    let mut words: Vec<u32> = Vec::new();
    let mut i: usize = 0;
    while i < transforms.len()
        invariant
            i <= transforms.len(),
            words@.len() == 32 * i,
            forall|j: int| 0 <= j < 32 * i ==> words@[j] == transforms@[j / 32].words()[j % 32],
        decreases transforms.len() - i,
    {
        let t = &transforms[i];
        let ghost before = words@;
        push_matrix(&mut words, &t.model);
        push_matrix(&mut words, &t.normal_matrix);
        assert(words@ =~= before + t.words());
        assert forall|j: int| 0 <= j < 32 * (i + 1) implies words@[j] == transforms@[j / 32].words()[
            j % 32] by {
            if j >= 32 * i {
                assert(j / 32 == i as int);
                assert(words@[j] == t.words()[j - 32 * i]);
            }
        }
        i += 1;
    }
    assert(words@ =~= transform_words(transforms@));
    words
}

/// The byte offset of attribute `i` when the attributes follow one another
/// without padding.
pub open spec fn attribute_offset(formats: Seq<VertexFormat>, i: int) -> int
    decreases i,
{
    if i <= 0 {
        0
    } else {
        attribute_offset(formats, i - 1) + formats[i - 1].spec_size()
    }
}

/// Attribute `i` of a stream whose attributes have these formats: packed, and
/// at the shader location of its position in the list.
pub open spec fn packed_attribute(formats: Seq<VertexFormat>, i: int) -> VertexAttribute {
    VertexAttribute {
        format: formats[i],
        offset: attribute_offset(formats, i) as u64,
        shader_location: i as u32,
    }
}

/// The attributes of a stream whose attributes have these formats.
pub open spec fn packed_attributes(formats: Seq<VertexFormat>) -> Seq<VertexAttribute> {
    Seq::new(formats.len(), |i: int| packed_attribute(formats, i))
}

/// No attribute starts beyond sixteen bytes for each attribute before it.
pub proof fn lemma_attribute_offset_bound(formats: Seq<VertexFormat>, i: int)
    requires
        0 <= i <= formats.len(),
    ensures
        0 <= attribute_offset(formats, i) <= 16 * i,
    decreases i,
{
    if i > 0 {
        lemma_attribute_offset_bound(formats, i - 1);
    }
}

/// Packs attributes of the given formats: each starts where the one before it
/// ends, and takes the shader location of its position in the list.
pub fn vertex_attributes(formats: &[VertexFormat]) -> (attributes: Vec<VertexAttribute>)
    requires
        formats@.len() <= u32::MAX,
    ensures
        attributes@ == packed_attributes(formats@),
{
    let mut attributes: Vec<VertexAttribute> = Vec::new();
    let mut offset: u64 = 0;
    let mut i: usize = 0;
    while i < formats.len()
        invariant
            i <= formats@.len() <= u32::MAX,
            offset == attribute_offset(formats@, i as int),
            attributes@.len() == i,
            forall|j: int| 0 <= j < i ==> attributes@[j] == packed_attribute(formats@, j),
        decreases formats@.len() - i,
    {
        let format = formats[i];
        proof {
            lemma_attribute_offset_bound(formats@, i as int);
        }
        attributes.push(VertexAttribute { format, offset, shader_location: i as u32 });
        offset = offset + format.size();
        i += 1;
    }
    assert(attributes@ =~= packed_attributes(formats@));
    attributes
}

/// A type whose values fill a vertex stream, with `C` attributes each.
pub trait VertexDescriptor<const C: usize> {
    /// Whether `layout` is the layout of a stream of such values. Each type
    /// says what its layout is.
    spec fn describes(layout: VertexBufferLayout) -> bool;

    /// The layout that a pipeline is given for a stream of such values.
    fn descript() -> (layout: VertexBufferLayout)
        ensures
            Self::describes(layout),
            layout.attributes@.len() == C,
    ;
}

/// The formats of the attributes of a vertex: the position, then the normal.
pub open spec fn vertex_formats() -> Seq<VertexFormat> {
    seq![VertexFormat::Float32x3, VertexFormat::Float32x3]
}

/// The formats of the attributes of an instance transform: the four columns
/// of the model matrix, then the four columns of the normal matrix.
pub open spec fn transform_formats() -> Seq<VertexFormat> {
    Seq::new(8, |i: int| VertexFormat::Float32x4)
}

impl VertexDescriptor<2> for Vertex {
    /// A vertex takes 24 bytes of a stream that advances by vertex, and its
    /// attributes are packed.
    open spec fn describes(layout: VertexBufferLayout) -> bool {
        &&& layout.array_stride == 24
        &&& layout.step_mode == VertexStepMode::Vertex
        &&& layout.attributes@ == packed_attributes(vertex_formats())
    }

    fn descript() -> (layout: VertexBufferLayout) {
        let formats = [VertexFormat::Float32x3, VertexFormat::Float32x3];
        assert(formats@ =~= vertex_formats());
        VertexBufferLayout {
            array_stride: 24,
            step_mode: VertexStepMode::Vertex,
            attributes: vertex_attributes(formats.as_slice()),
        }
    }
}

impl VertexDescriptor<8> for TransformRaw {
    /// An instance transform takes 128 bytes of a stream that advances by
    /// instance, and its attributes are packed.
    open spec fn describes(layout: VertexBufferLayout) -> bool {
        &&& layout.array_stride == 128
        &&& layout.step_mode == VertexStepMode::Instance
        &&& layout.attributes@ == packed_attributes(transform_formats())
    }

    fn descript() -> (layout: VertexBufferLayout) {
        let formats = [
            VertexFormat::Float32x4,
            VertexFormat::Float32x4,
            VertexFormat::Float32x4,
            VertexFormat::Float32x4,
            VertexFormat::Float32x4,
            VertexFormat::Float32x4,
            VertexFormat::Float32x4,
            VertexFormat::Float32x4,
        ];
        assert(formats@ =~= transform_formats());
        VertexBufferLayout {
            array_stride: 128,
            step_mode: VertexStepMode::Instance,
            attributes: vertex_attributes(formats.as_slice()),
        }
    }
}

/// A vertex has no padding: the layout's stride is the bytes of the vertex's
/// words, its attributes fill the stride, and they are the position at byte
/// 0 and the normal at byte 12.
pub proof fn lemma_vertex_layout_is_packed(v: Vertex, layout: VertexBufferLayout)
    requires
        <Vertex as VertexDescriptor<2>>::describes(layout),
    ensures
        layout.array_stride == 4 * v.words().len(),
        layout.array_stride == attribute_offset(vertex_formats(), 2),
        layout.attributes@ == seq![
            VertexAttribute { format: VertexFormat::Float32x3, offset: 0, shader_location: 0 },
            VertexAttribute { format: VertexFormat::Float32x3, offset: 12, shader_location: 1 },
        ],
{
    reveal_with_fuel(attribute_offset, 3);
    assert(packed_attributes(vertex_formats()) =~= seq![
        VertexAttribute { format: VertexFormat::Float32x3, offset: 0, shader_location: 0 },
        VertexAttribute { format: VertexFormat::Float32x3, offset: 12, shader_location: 1 },
    ]);
}

/// An instance transform has no padding: the layout's stride is the bytes of
/// the transform's words, its attributes fill the stride, and attribute `i`
/// is the four-component vector at byte `16 * i`.
pub proof fn lemma_transform_layout_is_packed(t: TransformRaw, layout: VertexBufferLayout)
    requires
        <TransformRaw as VertexDescriptor<8>>::describes(layout),
    ensures
        layout.array_stride == 4 * t.words().len(),
        layout.array_stride == attribute_offset(transform_formats(), 8),
        layout.attributes@.len() == 8,
        forall|i: int|
            0 <= i < 8 ==> #[trigger] layout.attributes@[i] == (VertexAttribute {
                format: VertexFormat::Float32x4,
                offset: (16 * i) as u64,
                shader_location: i as u32,
            }),
{
    reveal_with_fuel(attribute_offset, 9);
}

} // verus!
