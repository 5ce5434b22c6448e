use engine::render::builder::pass::RenderPassBuilder;
use engine::render::bundle::mesh::MeshBundle;
use engine::render::camera::CameraPerspective;
use engine::render::color::Color;
use engine::render::gpu::{
    Command, IndexFormat, LoadOp, Operations, RenderPass, RenderPassColorAttachment,
    SurfaceConfiguration, TextureFormat, TextureView,
};
use engine::render::material::color::StaticColorMaterial;
use engine::render::mesh::Mesh;
use engine::render::vertex::{TransformRaw, Vertex};
use engine::scene::{Scene, CAMERA_GROUP, MATERIAL_GROUP};

fn surface() -> SurfaceConfiguration {
    SurfaceConfiguration { format: TextureFormat::Bgra8UnormSrgb, width: 800, height: 600 }
}

fn bundle(indices: Option<Vec<u32>>) -> MeshBundle<StaticColorMaterial> {
    let vertices = (0..5u32)
        .map(|i| Vertex { position: [(i as f32).to_bits(), 0, 0], normal: [0; 3] })
        .collect();
    MeshBundle {
        mesh: Mesh { vertices, indices },
        transform: None,
        material: StaticColorMaterial { color: Color::from_rgb([0, 0, 0]) },
    }
}

fn translation(x: f32, y: f32, z: f32) -> TransformRaw {
    let one = 1.0f32.to_bits();
    let identity = [[one, 0, 0, 0], [0, one, 0, 0], [0, 0, one, 0], [0, 0, 0, one]];
    let mut model = identity;
    model[3] = [x.to_bits(), y.to_bits(), z.to_bits(), one];
    TransformRaw { model, normal_matrix: identity }
}

fn builder<'a>(
    attachments: &'a [Option<RenderPassColorAttachment<'a>>],
) -> RenderPassBuilder<'a> {
    RenderPassBuilder {
        label: Some("voxel pass"),
        color_attachments: attachments,
        depth_stencil_attachment: None,
    }
}

#[test]
fn groups_follow_the_pipeline_layout() {
    assert_eq!(MATERIAL_GROUP, 0);
    assert_eq!(CAMERA_GROUP, 1);
}

#[test]
fn new_scene_sees_nothing_through_the_identity() {
    let scene = Scene::<StaticColorMaterial>::new();
    assert_eq!(scene.bind_camera, CameraPerspective::new());
    assert_eq!(scene.bundles.iter().count(), 0);
    assert_eq!(scene.raw_bind_camera.bind_group.entries.len(), 1);
    assert_eq!(
        scene.raw_bind_camera.bind_group.entries[0].resource.contents,
        CameraPerspective::new().to_bytes()
    );

    let (pass, order) = scene.record(builder(&[]));
    assert!(order.is_empty());
    assert_eq!(
        pass.commands,
        vec![Command::SetBindGroup { index: 1, bind_group: &scene.raw_bind_camera.bind_group }]
    );
}

#[test]
fn spawned_bundle_is_resident_with_its_instance() {
    let mut scene = Scene::new();
    let first = scene.spawn(&surface(), bundle(None), translation(1.0, 1.0, 1.0));
    assert_eq!(first, 0);
    let raw = scene.bundles.get(first).unwrap();
    assert_eq!(raw.instances, vec![translation(1.0, 1.0, 1.0)]);
    assert_eq!(raw.instance_buffer.as_ref().unwrap().contents.len(), 128);
    assert_eq!(
        raw.material.pipeline.fragment.as_ref().unwrap().targets[0].unwrap().format,
        TextureFormat::Bgra8UnormSrgb
    );
    assert_eq!(
        raw.material.pipeline.layout.as_ref().unwrap().bind_group_layouts[1],
        scene.raw_bind_camera.bind_group_layout
    );
}

#[test]
fn camera_update_overwrites_the_uniform_buffer() {
    let mut scene = Scene::<StaticColorMaterial>::new();
    let mut matrix = [[0u32; 4]; 4];
    for c in 0..4 {
        for r in 0..4 {
            matrix[c][r] = ((c * 4 + r) as f32 + 0.5).to_bits();
        }
    }
    let payload = scene.update_camera(matrix).expect("the payload fits");
    assert_eq!(payload.len(), 64);
    assert_eq!(&payload[0..4], &0.5f32.to_ne_bytes());
    assert_eq!(&payload[60..64], &15.5f32.to_ne_bytes());
    assert_eq!(scene.bind_camera.view_projection, matrix);
    assert_eq!(scene.raw_bind_camera.bind_group.entries[0].resource.contents, payload);
    assert_eq!(scene.raw_bind_camera.bind_group.entries.len(), 1);
}

#[test]
fn camera_update_is_refused_by_a_buffer_too_small() {
    let mut scene = Scene::<StaticColorMaterial>::new();
    scene.raw_bind_camera.bind_group.entries[0].resource.contents.truncate(32);
    let before = scene.raw_bind_camera.bind_group.entries[0].resource.contents.clone();
    assert_eq!(scene.update_camera([[7; 4]; 4]), None);
    assert_eq!(scene.raw_bind_camera.bind_group.entries[0].resource.contents, before);
    assert_eq!(scene.bind_camera.view_projection, [[7; 4]; 4]);
}

#[test]
fn frame_of_one_bundle_is_one_indexed_instanced_draw() {
    let mut scene = Scene::new();
    let id = scene.spawn(
        &surface(),
        bundle(Some(vec![0, 1, 4, 1, 2, 4, 2, 3, 4, 0])),
        translation(1.0, 1.0, 1.0),
    );

    let view = TextureView { id: 0 };
    let clear = Color::from_rgba([
        0.5f32.to_bits(),
        0.2f32.to_bits(),
        0.3f32.to_bits(),
        1.0f32.to_bits(),
    ]);
    let attachments = [Some(RenderPassColorAttachment {
        view: &view,
        resolve_target: None,
        ops: Operations { load: LoadOp::Clear(clear), store: true },
    })];
    let (pass, order): (RenderPass, Vec<usize>) = scene.record(builder(&attachments));

    assert_eq!(order, vec![id]);
    assert_eq!(pass.label, Some("voxel pass"));
    assert_eq!(pass.color_attachments, &attachments);
    let raw = scene.bundles.get(id).unwrap();
    assert_eq!(
        pass.commands,
        vec![
            Command::SetBindGroup { index: 1, bind_group: &scene.raw_bind_camera.bind_group },
            Command::SetPipeline { pipeline: &raw.material.pipeline },
            Command::SetBindGroup { index: 0, bind_group: &raw.material.bind_group },
            Command::SetVertexBuffer { slot: 0, buffer: &raw.mesh.vertex_buffer },
            Command::SetVertexBuffer { slot: 1, buffer: raw.instance_buffer.as_ref().unwrap() },
            Command::SetIndexBuffer {
                buffer: raw.mesh.index_buffer.as_ref().unwrap(),
                format: IndexFormat::Uint32,
            },
            Command::DrawIndexed { indices: 0..10, base_vertex: 0, instances: 0..1 },
        ]
    );
}

#[test]
fn frame_binds_every_bundle_once() {
    let mut scene = Scene::new();
    let mut handles = Vec::new();
    for i in 0..4 {
        let mut queued = Vec::new();
        for _ in 0..=i {
            queued.push(scene.bundles.add(bundle(None)));
        }
        let last = scene.spawn(&surface(), bundle(None), translation(i as f32, 0.0, 0.0));
        assert_eq!(last, i + 1);
        handles = queued;
        handles.push(last);
    }

    let (pass, mut order) = scene.record(builder(&[]));
    order.sort();
    assert_eq!(order, handles);
    assert_eq!(order, vec![0, 1, 2, 3, 4]);
    let draws = pass.commands.iter().filter(|c| matches!(c, Command::Draw { .. })).count();
    assert_eq!(draws, 5);
    let pipelines =
        pass.commands.iter().filter(|c| matches!(c, Command::SetPipeline { .. })).count();
    assert_eq!(pipelines, 5);
    assert_eq!(
        pass.commands[0],
        Command::SetBindGroup { index: 1, bind_group: &scene.raw_bind_camera.bind_group }
    );
}
