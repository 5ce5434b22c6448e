use engine::render::gpu::{Buffer, BufferUsages, Command, IndexFormat, RenderPass};
use engine::render::mesh::{Mesh, MissingBuffer};
use engine::render::vertex::Vertex;
use engine::render::{ArenaError, BufferArena, BufferIndex, ARENA_CAPACITY};

fn buffer(byte: u8) -> Buffer {
    Buffer { label: "test", usage: BufferUsages::vertex(), contents: vec![byte; 4] }
}

fn empty_pass<'a>() -> RenderPass<'a> {
    RenderPass {
        label: None,
        color_attachments: &[],
        depth_stencil_attachment: None,
        commands: Vec::new(),
    }
}

fn triangle() -> Vec<Vertex> {
    vec![
        Vertex { position: [1, 2, 3], normal: [0; 3] },
        Vertex { position: [4, 5, 6], normal: [0; 3] },
        Vertex { position: [7, 8, 9], normal: [0; 3] },
    ]
}

#[test]
fn new_arena_is_empty() {
    let arena = BufferArena::default();
    assert!(!arena.contains(BufferIndex { slot: 0, generation: 0 }));
    assert!(arena.get(BufferIndex { slot: 0, generation: 0 }).is_none());
    assert_eq!(ARENA_CAPACITY, 32);
}

#[test]
fn inserted_buffers_are_found_by_their_indices() {
    let mut arena = BufferArena::default();
    let a = arena.insert(buffer(1));
    let b = arena.insert(buffer(2));
    assert_ne!(a, b);
    assert_eq!(a.generation, 0);
    assert_eq!(b.generation, 0);
    assert_eq!(arena.get(a), Some(&buffer(1)));
    assert_eq!(arena.get(b), Some(&buffer(2)));
    assert!(arena.contains(a));
}

#[test]
fn arena_grows_beyond_its_first_capacity() {
    let mut arena = BufferArena::default();
    let indices: Vec<BufferIndex> = (0..100).map(|i| arena.insert(buffer(i as u8))).collect();
    for (i, index) in indices.iter().enumerate() {
        assert_eq!(arena.get(*index).unwrap().contents, vec![i as u8; 4]);
    }
    let mut slots: Vec<usize> = indices.iter().map(|i| i.slot).collect();
    slots.sort();
    slots.dedup();
    assert_eq!(slots.len(), 100);
}

#[test]
fn removed_index_is_stale_even_when_its_slot_is_reused() {
    let mut arena = BufferArena::default();
    let a = arena.insert(buffer(1));
    let kept = arena.insert(buffer(2));

    assert_eq!(arena.remove(a), Ok(buffer(1)));
    assert!(arena.get(a).is_none());
    assert_eq!(arena.remove(a), Err(ArenaError::Stale));

    let b = arena.insert(buffer(3));
    assert_eq!(b.slot, a.slot);
    assert_eq!(b.generation, a.generation + 1);
    assert_ne!(a, b);
    assert!(arena.get(a).is_none());
    assert!(!arena.contains(a));
    assert_eq!(arena.get(b), Some(&buffer(3)));
    assert_eq!(arena.get(kept), Some(&buffer(2)));
}

#[test]
fn index_that_was_never_given_out_finds_nothing() {
    let mut arena = BufferArena::default();
    let a = arena.insert(buffer(1));
    let wrong_generation = BufferIndex { slot: a.slot, generation: a.generation + 1 };
    let wrong_slot = BufferIndex { slot: a.slot + 1000, generation: a.generation };
    assert!(arena.get(wrong_generation).is_none());
    assert!(arena.get(wrong_slot).is_none());
    assert_eq!(arena.remove(wrong_slot), Err(ArenaError::Stale));
    assert_eq!(arena.get(a), Some(&buffer(1)));
}

#[test]
fn mesh_in_an_arena_keeps_indices_to_its_buffers() {
    let mut arena = BufferArena::default();
    let earlier = arena.insert(buffer(9));
    let mesh = Mesh { vertices: triangle(), indices: Some(vec![0, 1, 2]) };
    let raw = mesh.to_raw_in(&mut arena);
    let direct = mesh.to_raw();

    assert_eq!(raw.num_vertices, 3);
    assert_eq!(raw.num_indices, 3);
    assert_ne!(raw.vertex_buffer, earlier);
    assert_ne!(Some(raw.vertex_buffer), raw.index_buffer);
    assert_eq!(arena.get(raw.vertex_buffer), Some(&direct.vertex_buffer));
    assert_eq!(arena.get(raw.index_buffer.unwrap()), direct.index_buffer.as_ref());
    assert_eq!(arena.get(earlier), Some(&buffer(9)));

    let plain = Mesh { vertices: triangle(), indices: None }.to_raw_in(&mut arena);
    assert_eq!(plain.index_buffer, None);
    assert_eq!(plain.num_indices, 0);
    assert_eq!(arena.get(plain.vertex_buffer).unwrap().contents.len(), 72);
}

#[test]
fn arena_mesh_is_drawn_from_the_arena() {
    let mut arena = BufferArena::default();
    let raw = Mesh { vertices: triangle(), indices: Some(vec![0, 1, 2]) }.to_raw_in(&mut arena);
    let mut pass = empty_pass();
    assert_eq!(raw.render(2, &arena, &mut pass), Ok(()));
    assert_eq!(
        pass.commands,
        vec![
            Command::SetVertexBuffer { slot: 2, buffer: arena.get(raw.vertex_buffer).unwrap() },
            Command::SetIndexBuffer {
                buffer: arena.get(raw.index_buffer.unwrap()).unwrap(),
                format: IndexFormat::Uint32,
            },
            Command::DrawIndexed { indices: 0..3, base_vertex: 0, instances: 0..1 },
        ]
    );
}

#[test]
fn arena_mesh_with_a_stale_buffer_is_not_drawn() {
    let mut arena = BufferArena::default();
    let raw = Mesh { vertices: triangle(), indices: Some(vec![0, 1, 2]) }.to_raw_in(&mut arena);

    arena.remove(raw.index_buffer.unwrap()).unwrap();
    let reused = arena.insert(buffer(5));
    assert_eq!(reused.slot, raw.index_buffer.unwrap().slot);
    {
        let mut pass = empty_pass();
        assert_eq!(raw.render(0, &arena, &mut pass), Err(MissingBuffer::Indices));
        assert!(pass.commands.is_empty());
    }

    arena.remove(raw.vertex_buffer).unwrap();
    let mut pass = empty_pass();
    assert_eq!(raw.render(0, &arena, &mut pass), Err(MissingBuffer::Vertices));
    assert!(pass.commands.is_empty());
}
