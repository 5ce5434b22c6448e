//! Meshes: vertex and index data, their resident form, and how a resident
//! mesh is drawn.

use core::ops::Range;
use vstd::prelude::*;

use crate::render::bytes::{is_native_image, words_to_bytes};
use crate::render::gpu::{Buffer, BufferUsages, Command, IndexFormat, Recorder, RenderPass};
use crate::render::vertex::{vertex_words, vertices_to_words, TransformRaw, Vertex};
use crate::render::{BufferArena, BufferIndex};

verus! {

/// A mesh on the CPU: its vertices, and the indices that select them if it has any.
#[derive(Debug, PartialEq, Eq)]
pub struct Mesh {
    pub vertices: Vec<Vertex>,
    pub indices: Option<Vec<u32>>,
}

/// A resident mesh: its buffers and the counts that a draw needs.
#[derive(Debug, PartialEq, Eq)]
pub struct RawMesh {
    pub vertex_buffer: Buffer,
    pub index_buffer: Option<Buffer>,
    pub num_vertices: usize,
    pub num_indices: usize,
}

/// `buffer` is the vertex buffer made of these vertices.
pub open spec fn is_vertex_buffer(buffer: Buffer, vertices: Seq<Vertex>) -> bool {
    &&& buffer.label@ == "voxel_chunk_vertices"@
    &&& buffer.usage == BufferUsages::spec_vertex()
    &&& is_native_image(buffer.contents@, vertex_words(vertices))
}

/// `buffer` is the index buffer made of these indices.
pub open spec fn is_index_buffer(buffer: Buffer, indices: Seq<u32>) -> bool {
    &&& buffer.label@ == "voxel_chunk_indices"@
    &&& buffer.usage == BufferUsages::spec_index()
    &&& is_native_image(buffer.contents@, indices)
}

impl Mesh {
    /// `raw` is the resident form of this mesh: the vertices uploaded as a
    /// vertex buffer, the indices, if there are any, as an index buffer, and
    /// both counts (no indices count as zero).
    pub open spec fn uploads_as(&self, raw: &RawMesh) -> bool {
        &&& is_vertex_buffer(raw.vertex_buffer, self.vertices@)
        &&& raw.num_vertices == self.vertices@.len()
        &&& match self.indices {
            Some(indices) => {
                &&& raw.index_buffer is Some
                &&& is_index_buffer(raw.index_buffer->0, indices@)
                &&& raw.num_indices == indices@.len()
            },
            None => {
                &&& raw.index_buffer is None
                &&& raw.num_indices == 0
            },
        }
    }

    /// Makes the mesh resident. Each call lays the data out anew.
    pub fn to_raw(&self) -> (raw: RawMesh)
        ensures
            self.uploads_as(&raw),
    {
        let words = vertices_to_words(&self.vertices);
        let vertex_buffer = Buffer {
            label: "voxel_chunk_vertices",
            usage: BufferUsages::vertex(),
            contents: words_to_bytes(&words),
        };
        let (index_buffer, num_indices) = match &self.indices {
            Some(indices) => {
                let buffer = Buffer {
                    label: "voxel_chunk_indices",
                    usage: BufferUsages::index(),
                    contents: words_to_bytes(indices),
                };
                (Some(buffer), indices.len())
            },
            None => (None, 0),
        };
        RawMesh { vertex_buffer, index_buffer, num_vertices: self.vertices.len(), num_indices }
    }
}

/// The draw that ends the drawing of a mesh: indexed over all the indices if
/// there are any, and over all the vertices if there are none. A draw counts
/// in 32 bits: of a count beyond them it takes the low 32 bits.
pub open spec fn draw_command<'a>(
    num_indices: usize,
    num_vertices: usize,
    instances: Range<u32>,
) -> Command<'a> {
    if num_indices != 0 {
        Command::DrawIndexed {
            indices: Range { start: 0u32, end: num_indices as u32 },
            base_vertex: 0i32,
            instances,
        }
    } else {
        Command::Draw { vertices: Range { start: 0u32, end: num_vertices as u32 }, instances }
    }
}

/// The commands that bind an index buffer, if there is one.
pub open spec fn index_commands<'a>(indices: Option<&'a Buffer>) -> Seq<Command<'a>> {
    match indices {
        Some(buffer) => seq![Command::SetIndexBuffer { buffer, format: IndexFormat::Uint32 }],
        None => Seq::empty(),
    }
}

/// The commands that draw a mesh once from stream `idx`.
pub open spec fn raw_mesh_commands<'a>(
    idx: u32,
    vertices: &'a Buffer,
    indices: Option<&'a Buffer>,
    num_indices: usize,
    num_vertices: usize,
) -> Seq<Command<'a>> {
    seq![Command::SetVertexBuffer { slot: idx, buffer: vertices }] + index_commands(indices)
        + seq![draw_command(num_indices, num_vertices, Range { start: 0u32, end: 1u32 })]
}

/// The commands that draw a mesh once for each instance: the vertices from
/// stream `idx`, the instances from the stream after it.
pub open spec fn instanced_raw_mesh_commands<'a>(
    idx: u32,
    vertices: &'a Buffer,
    indices: Option<&'a Buffer>,
    instance: &'a Vec<TransformRaw>,
    instance_buffer: &'a Buffer,
    num_indices: usize,
    num_vertices: usize,
) -> Seq<Command<'a>> {
    seq![
        Command::SetVertexBuffer { slot: idx, buffer: vertices },
        Command::SetVertexBuffer { slot: (idx + 1) as u32, buffer: instance_buffer },
    ] + index_commands(indices) + seq![
        draw_command(
            num_indices,
            num_vertices,
            Range { start: 0u32, end: instance@.len() as u32 },
        ),
    ]
}

/// Drawing from buffers and counts given one by one.
pub trait UntypedMeshRender<'a>: Recorder<'a> {
    /// Records one draw of the mesh.
    fn render_raw_mesh(
        &mut self,
        idx: u32,
        vertices: &'a Buffer,
        indices: Option<&'a Buffer>,
        num_indices: usize,
        num_vertices: usize,
    )
        ensures
            final(self).same_target(old(self)),
            final(self).recorded() == old(self).recorded() + raw_mesh_commands(
                idx,
                vertices,
                indices,
                num_indices,
                num_vertices,
            ),
    ;

    /// Records one draw of the mesh for all the instances.
    fn render_instanced_raw_mesh(
        &mut self,
        idx: u32,
        vertices: &'a Buffer,
        indices: Option<&'a Buffer>,
        instance: &'a Vec<TransformRaw>,
        instance_buffer: &'a Buffer,
        num_indices: usize,
        num_vertices: usize,
    )
        requires
            idx < u32::MAX,
        ensures
            final(self).same_target(old(self)),
            final(self).recorded() == old(self).recorded() + instanced_raw_mesh_commands(
                idx,
                vertices,
                indices,
                instance,
                instance_buffer,
                num_indices,
                num_vertices,
            ),
    ;
}

/// Drawing a resident mesh.
pub trait MeshRender<'a>: Recorder<'a> {
    /// Records one draw of the mesh.
    fn render_single_mesh(&mut self, idx: u32, mesh: &'a RawMesh)
        ensures
            final(self).same_target(old(self)),
            final(self).recorded() == old(self).recorded() + mesh.single_commands(idx),
    ;

    /// Records one draw of the mesh for all the instances.
    fn render_instanced_mesh(
        &mut self,
        idx: u32,
        instances: &'a Vec<TransformRaw>,
        instance_buffer: &'a Buffer,
        mesh: &'a RawMesh,
    )
        requires
            idx < u32::MAX,
        ensures
            final(self).same_target(old(self)),
            final(self).recorded() == old(self).recorded() + mesh.instanced_commands(
                idx,
                instances,
                instance_buffer,
            ),
    ;
}

impl RawMesh {
    /// The index buffer, borrowed.
    pub open spec fn index_ref<'a>(&'a self) -> Option<&'a Buffer> {
        match self.index_buffer {
            Some(buffer) => Some(&buffer),
            None => None,
        }
    }

    /// The commands that draw this mesh once from stream `idx`.
    pub open spec fn single_commands<'a>(&'a self, idx: u32) -> Seq<Command<'a>> {
        raw_mesh_commands(
            idx,
            &self.vertex_buffer,
            self.index_ref(),
            self.num_indices,
            self.num_vertices,
        )
    }

    /// The commands that draw this mesh once for each instance.
    pub open spec fn instanced_commands<'a>(
        &'a self,
        idx: u32,
        instances: &'a Vec<TransformRaw>,
        instance_buffer: &'a Buffer,
    ) -> Seq<Command<'a>> {
        instanced_raw_mesh_commands(
            idx,
            &self.vertex_buffer,
            self.index_ref(),
            instances,
            instance_buffer,
            self.num_indices,
            self.num_vertices,
        )
    }
}

impl<'a> UntypedMeshRender<'a> for RenderPass<'a> {
    fn render_raw_mesh(
        &mut self,
        idx: u32,
        vertices: &'a Buffer,
        indices: Option<&'a Buffer>,
        num_indices: usize,
        num_vertices: usize,
    ) {
        self.set_vertex_buffer(idx, vertices);
        if let Some(index_buffer) = indices {
            self.set_index_buffer(index_buffer, IndexFormat::Uint32);
        }
        if num_indices != 0 {
            self.draw_indexed(0..(#[verifier::truncate] (num_indices as u32)), 0, 0..1);
        } else {
            self.draw(0..(#[verifier::truncate] (num_vertices as u32)), 0..1);
        }
        assert(self.commands@ =~= old(self).commands@ + raw_mesh_commands(
            idx,
            vertices,
            indices,
            num_indices,
            num_vertices,
        ));
    }

    fn render_instanced_raw_mesh(
        &mut self,
        idx: u32,
        vertices: &'a Buffer,
        indices: Option<&'a Buffer>,
        instance: &'a Vec<TransformRaw>,
        instance_buffer: &'a Buffer,
        num_indices: usize,
        num_vertices: usize,
    ) {
        self.set_vertex_buffer(idx, vertices);
        self.set_vertex_buffer(idx + 1, instance_buffer);
        if let Some(index_buffer) = indices {
            self.set_index_buffer(index_buffer, IndexFormat::Uint32);
        }
        let count = #[verifier::truncate] (instance.len() as u32);
        if num_indices != 0 {
            self.draw_indexed(0..(#[verifier::truncate] (num_indices as u32)), 0, 0..count);
        } else {
            self.draw(0..(#[verifier::truncate] (num_vertices as u32)), 0..count);
        }
        assert(self.commands@ =~= old(self).commands@ + instanced_raw_mesh_commands(
            idx,
            vertices,
            indices,
            instance,
            instance_buffer,
            num_indices,
            num_vertices,
        ));
    }
}

impl<'a> MeshRender<'a> for RenderPass<'a> {
    fn render_single_mesh(&mut self, idx: u32, mesh: &'a RawMesh) {
        self.render_raw_mesh(
            idx,
            &mesh.vertex_buffer,
            mesh.index_buffer.as_ref(),
            mesh.num_indices,
            mesh.num_vertices,
        );
    }

    fn render_instanced_mesh(
        &mut self,
        idx: u32,
        instances: &'a Vec<TransformRaw>,
        instance_buffer: &'a Buffer,
        mesh: &'a RawMesh,
    ) {
        self.render_instanced_raw_mesh(
            idx,
            &mesh.vertex_buffer,
            mesh.index_buffer.as_ref(),
            instances,
            instance_buffer,
            mesh.num_indices,
            mesh.num_vertices,
        );
    }
}

impl Mesh {
    /// The number of indices of the mesh: none if it has no indices.
    pub open spec fn index_count(&self) -> nat {
        match self.indices {
            Some(indices) => indices@.len(),
            None => 0,
        }
    }
}

/// A resident mesh is drawn by its index count. The resident form of a mesh
/// with indices counts as many as the mesh has, and every drawing of it ends
/// in an indexed draw over all of them. The resident form of a mesh without
/// indices counts as many vertices as the mesh has, and every drawing of it
/// ends in a draw over all of them that is not indexed. A count that fits in
/// 32 bits is drawn as it is.
pub proof fn lemma_draw_plan(
    mesh: Mesh,
    raw: RawMesh,
    idx: u32,
    instances: Vec<TransformRaw>,
    instance_buffer: Buffer,
)
    requires
        mesh.uploads_as(&raw),
    ensures
        raw.num_indices == mesh.index_count(),
        raw.num_vertices == mesh.vertices@.len(),
        mesh.index_count() != 0 ==> {
            &&& raw.single_commands(idx).last() == Command::DrawIndexed {
                indices: Range { start: 0u32, end: mesh.index_count() as u32 },
                base_vertex: 0i32,
                instances: Range { start: 0u32, end: 1u32 },
            }
            &&& raw.instanced_commands(idx, &instances, &instance_buffer).last()
                == Command::DrawIndexed {
                indices: Range { start: 0u32, end: mesh.index_count() as u32 },
                base_vertex: 0i32,
                instances: Range { start: 0u32, end: instances@.len() as u32 },
            }
        },
        mesh.index_count() == 0 ==> {
            &&& raw.single_commands(idx).last() == Command::Draw {
                vertices: Range { start: 0u32, end: mesh.vertices@.len() as u32 },
                instances: Range { start: 0u32, end: 1u32 },
            }
            &&& raw.instanced_commands(idx, &instances, &instance_buffer).last() == Command::Draw {
                vertices: Range { start: 0u32, end: mesh.vertices@.len() as u32 },
                instances: Range { start: 0u32, end: instances@.len() as u32 },
            }
        },
        mesh.index_count() <= u32::MAX ==> mesh.index_count() as u32 == mesh.index_count(),
        mesh.vertices@.len() <= u32::MAX ==> mesh.vertices@.len() as u32 == mesh.vertices@.len(),
{
}

/// A resident mesh whose buffers lie in an arena: it holds their indices, and
/// the arena holds the buffers.
#[derive(Clone, Copy, Debug, PartialEq, Eq)]
pub struct ArenaMesh {
    pub vertex_buffer: BufferIndex,
    pub index_buffer: Option<BufferIndex>,
    pub num_vertices: usize,
    pub num_indices: usize,
}

/// The buffer of an arena mesh that its arena no longer holds.
#[derive(Clone, Copy, Debug, PartialEq, Eq, Structural)]
pub enum MissingBuffer {
    Vertices,
    Indices,
}

impl Mesh {
    /// `raw` is the resident form of this mesh in an arena that held `before`
    /// and now holds `after`: the buffers of the mesh have been added under
    /// indices that were free, the counts are those of the mesh, and what the
    /// arena held is still there.
    pub open spec fn uploads_into(
        &self,
        before: Map<BufferIndex, Buffer>,
        raw: ArenaMesh,
        after: Map<BufferIndex, Buffer>,
    ) -> bool {
        &&& !before.contains_key(raw.vertex_buffer)
        &&& after.contains_key(raw.vertex_buffer)
        &&& is_vertex_buffer(after[raw.vertex_buffer], self.vertices@)
        &&& raw.num_vertices == self.vertices@.len()
        &&& forall|index: BufferIndex| #[trigger]
            before.contains_key(index) ==> after.contains_key(index) && after[index]
                == before[index]
        &&& match self.indices {
            Some(indices) => {
                &&& raw.index_buffer is Some
                &&& raw.index_buffer->0 != raw.vertex_buffer
                &&& !before.contains_key(raw.index_buffer->0)
                &&& after.contains_key(raw.index_buffer->0)
                &&& is_index_buffer(after[raw.index_buffer->0], indices@)
                &&& raw.num_indices == indices@.len()
                &&& after.dom() == before.dom().insert(raw.vertex_buffer).insert(
                    raw.index_buffer->0,
                )
            },
            None => {
                &&& raw.index_buffer is None
                &&& raw.num_indices == 0
                &&& after.dom() == before.dom().insert(raw.vertex_buffer)
            },
        }
    }

    /// Makes the mesh resident in `arena`: the buffers are those that
    /// `to_raw` makes, and the mesh keeps their indices.
    pub fn to_raw_in(&self, arena: &mut BufferArena) -> (raw: ArenaMesh)
        requires
            old(arena).wf(),
        ensures
            final(arena).wf(),
            self.uploads_into(old(arena)@, raw, final(arena)@),
            forall|stale: BufferIndex| old(arena).is_stale(stale) ==> final(arena).is_stale(stale),
    {
        let RawMesh { vertex_buffer, index_buffer, num_vertices, num_indices } = self.to_raw();
        let vertex_buffer = arena.insert(vertex_buffer);
        let index_buffer = match index_buffer {
            Some(buffer) => Some(arena.insert(buffer)),
            None => None,
        };
        let raw = ArenaMesh { vertex_buffer, index_buffer, num_vertices, num_indices };
        proof {
            if raw.index_buffer is Some {
                assert(arena@.dom() =~= old(arena)@.dom().insert(raw.vertex_buffer).insert(
                    raw.index_buffer->0,
                ));
            } else {
                assert(arena@.dom() =~= old(arena)@.dom().insert(raw.vertex_buffer));
            }
        }
        raw
    }
}

impl ArenaMesh {
    /// The index buffer as `arena` holds it.
    pub open spec fn index_in<'a>(&self, arena: &'a BufferArena) -> Option<&'a Buffer> {
        match self.index_buffer {
            Some(index) => Some(&arena@[index]),
            None => None,
        }
    }

    /// The commands that draw this mesh once from stream `idx`, its buffers
    /// being those that `arena` holds.
    pub open spec fn single_commands<'a>(&self, idx: u32, arena: &'a BufferArena) -> Seq<
        Command<'a>,
    > {
        raw_mesh_commands(
            idx,
            &arena@[self.vertex_buffer],
            self.index_in(arena),
            self.num_indices,
            self.num_vertices,
        )
    }

    /// The buffer of this mesh that `arena` does not hold, if there is one:
    /// the vertex buffer before the index buffer.
    pub open spec fn missing_in(&self, arena: &BufferArena) -> Option<MissingBuffer> {
        if !arena@.contains_key(self.vertex_buffer) {
            Some(MissingBuffer::Vertices)
        } else if self.index_buffer is Some && !arena@.contains_key(self.index_buffer->0) {
            Some(MissingBuffer::Indices)
        } else {
            None
        }
    }

    /// Records one draw of the mesh from stream `idx`, with the buffers that
    /// `arena` holds under the mesh's indices. Where the arena does not hold
    /// one of them, nothing is recorded and the missing buffer is named.
    pub fn render<'a>(
        &self,
        idx: u32,
        arena: &'a BufferArena,
        render_pass: &mut RenderPass<'a>,
    ) -> (drawn: Result<(), MissingBuffer>)
        ensures
            final(render_pass).target() == old(render_pass).target(),
            match drawn {
                Ok(()) => {
                    &&& self.missing_in(arena) is None
                    &&& final(render_pass).commands@ == old(render_pass).commands@
                        + self.single_commands(idx, arena)
                },
                Err(missing) => {
                    &&& self.missing_in(arena) == Some(missing)
                    &&& final(render_pass).commands@ == old(render_pass).commands@
                },
            },
    {
        let vertices = match arena.get(self.vertex_buffer) {
            Some(buffer) => buffer,
            None => {
                return Err(MissingBuffer::Vertices);
            },
        };
        let indices = match self.index_buffer {
            Some(index) => match arena.get(index) {
                Some(buffer) => Some(buffer),
                None => {
                    return Err(MissingBuffer::Indices);
                },
            },
            None => None,
        };
        render_pass.render_raw_mesh(idx, vertices, indices, self.num_indices, self.num_vertices);
        Ok(())
    }
}

} // verus!
