use engine::render::bundle::mesh::{Bundles, MeshBundle, RawMeshBundle};
use engine::render::camera::{CameraBind, CameraPerspective};
use engine::render::color::Color;
use engine::render::gpu::{
    BufferUsages, Command, IndexFormat, RenderPass, SurfaceConfiguration, TextureFormat,
};
use engine::render::material::color::{RawStaticColorMaterial, StaticColorMaterial};
use engine::render::mesh::Mesh;
use engine::render::raw::{IntoRawBinder, RawBinder, RawBindingRender, RawParams};
use engine::render::vertex::{transforms_to_words, TransformRaw, Vertex};

fn surface() -> SurfaceConfiguration {
    SurfaceConfiguration { format: TextureFormat::Bgra8UnormSrgb, width: 800, height: 600 }
}

fn camera() -> CameraBind {
    CameraBind::new(&CameraPerspective::new().to_bytes())
}

fn magenta() -> StaticColorMaterial {
    StaticColorMaterial {
        color: Color::from_rgba([
            1.0f32.to_bits(),
            0.0f32.to_bits(),
            1.0f32.to_bits(),
            0.3f32.to_bits(),
        ]),
    }
}

fn pentagon() -> Mesh {
    let positions: [[f32; 3]; 5] = [
        [-0.0868241, 0.49240386, 0.0],
        [-0.49513406, 0.06958647, 0.0],
        [-0.21918549, -0.44939706, 0.0],
        [0.35966998, -0.3473291, 0.0],
        [0.44147372, 0.2347359, 0.0],
    ];
    Mesh {
        vertices: positions
            .iter()
            .map(|p| Vertex {
                position: [p[0].to_bits(), p[1].to_bits(), p[2].to_bits()],
                normal: [0; 3],
            })
            .collect(),
        indices: Some(vec![0, 1, 4, 1, 2, 4, 2, 3, 4, 0]),
    }
}

fn bundle() -> MeshBundle<StaticColorMaterial> {
    MeshBundle { mesh: pentagon(), transform: None, material: magenta() }
}

fn translation(x: f32, y: f32, z: f32) -> TransformRaw {
    let one = 1.0f32.to_bits();
    let identity = [[one, 0, 0, 0], [0, one, 0, 0], [0, 0, one, 0], [0, 0, 0, one]];
    let mut model = identity;
    model[3] = [x.to_bits(), y.to_bits(), z.to_bits(), one];
    TransformRaw { model, normal_matrix: identity }
}

fn ne_bytes(words: &[u32]) -> Vec<u8> {
    words.iter().flat_map(|w| w.to_ne_bytes()).collect()
}

fn empty_pass<'a>() -> RenderPass<'a> {
    RenderPass {
        label: Some("voxel pass"),
        color_attachments: &[],
        depth_stencil_attachment: None,
        commands: Vec::new(),
    }
}

fn resident(
    bundles: &Bundles<StaticColorMaterial>,
) -> Vec<(usize, &RawMeshBundle<RawStaticColorMaterial>)> {
    let mut all: Vec<_> = bundles.iter().map(|(id, raw)| (*id, raw)).collect();
    all.sort_by_key(|(id, _)| *id);
    all
}

#[test]
fn handles_count_up_from_zero() {
    let mut bundles = Bundles::<StaticColorMaterial>::default();
    let handles: Vec<usize> = (0..7).map(|_| bundles.add(bundle())).collect();
    assert_eq!(handles, vec![0, 1, 2, 3, 4, 5, 6]);
}

#[test]
fn queued_bundles_are_not_resident_before_processing() {
    let mut bundles = Bundles::<StaticColorMaterial>::default();
    let id = bundles.add(bundle());
    bundles.instance(id, translation(1.0, 1.0, 1.0));
    assert!(bundles.get(id).is_none());
    assert_eq!(bundles.iter().count(), 0);
}

#[test]
fn processing_makes_queued_bundles_resident_without_instances() {
    let camera = camera();
    let surface = surface();
    let params = RawParams { config: &surface, raw_camera: &camera };
    let mut bundles = Bundles::<StaticColorMaterial>::default();
    let first = bundles.add(bundle());
    let second = bundles.add(MeshBundle {
        mesh: Mesh { vertices: pentagon().vertices, indices: None },
        transform: Some(translation(2.0, 0.0, 0.0)),
        material: magenta(),
    });
    bundles.process_queue(&params);

    let all = resident(&bundles);
    assert_eq!(all.len(), 2);
    assert_eq!(all[0].0, first);
    assert_eq!(all[1].0, second);
    for (_, raw) in &all {
        assert!(raw.instances.is_empty());
        assert!(raw.instance_buffer.is_none());
        assert_eq!(raw.mesh.num_vertices, 5);
    }
    assert_eq!(all[0].1.mesh, pentagon().to_raw());
    assert_eq!(all[0].1.material, magenta().into_raw(&params));
    assert_eq!(all[0].1.mesh.num_indices, 10);
    assert_eq!(all[1].1.mesh.num_indices, 0);
}

#[test]
fn handles_start_again_once_the_queue_is_drained() {
    let camera = camera();
    let surface = surface();
    let params = RawParams { config: &surface, raw_camera: &camera };
    let mut bundles = Bundles::<StaticColorMaterial>::default();
    assert_eq!(bundles.add(bundle()), 0);
    assert_eq!(bundles.add(bundle()), 1);
    bundles.process_queue(&params);
    assert_eq!(bundles.add(bundle()), 0);
}

#[test]
fn processing_twice_changes_nothing() {
    let camera = camera();
    let surface = surface();
    let params = RawParams { config: &surface, raw_camera: &camera };
    let mut bundles = Bundles::<StaticColorMaterial>::default();
    let id = bundles.add(bundle());
    bundles.add(bundle());
    bundles.instance(id, translation(1.0, 1.0, 1.0));
    bundles.process_queue(&params);

    let once: Vec<(usize, Vec<TransformRaw>, Option<Vec<u8>>, usize)> = resident(&bundles)
        .iter()
        .map(|(id, raw)| {
            (
                *id,
                raw.instances.clone(),
                raw.instance_buffer.as_ref().map(|b| b.contents.clone()),
                raw.mesh.num_indices,
            )
        })
        .collect();
    bundles.process_queue(&params);
    let twice: Vec<(usize, Vec<TransformRaw>, Option<Vec<u8>>, usize)> = resident(&bundles)
        .iter()
        .map(|(id, raw)| {
            (
                *id,
                raw.instances.clone(),
                raw.instance_buffer.as_ref().map(|b| b.contents.clone()),
                raw.mesh.num_indices,
            )
        })
        .collect();

    assert_eq!(once, twice);
    assert_eq!(twice.len(), 2);
    assert_eq!(twice[0].1.len(), 1);
    assert_eq!(twice[1].1.len(), 0);
}

#[test]
fn three_rounds_give_three_instances_and_384_bytes() {
    let camera = camera();
    let surface = surface();
    let params = RawParams { config: &surface, raw_camera: &camera };
    let mut bundles = Bundles::<StaticColorMaterial>::default();
    let id = bundles.add(bundle());
    let transforms =
        [translation(1.0, 0.0, 0.0), translation(0.0, 2.0, 0.0), translation(0.0, 0.0, 3.0)];
    for (round, transform) in transforms.iter().enumerate() {
        bundles.instance(id, *transform);
        bundles.process_queue(&params);
        let raw = bundles.get(id).unwrap();
        assert_eq!(raw.instances.len(), round + 1);
        assert_eq!(raw.instance_buffer.as_ref().unwrap().contents.len(), 128 * (round + 1));
    }

    let raw = bundles.get(id).unwrap();
    assert_eq!(raw.instances, transforms.to_vec());
    let buffer = raw.instance_buffer.as_ref().unwrap();
    assert_eq!(std::mem::size_of::<TransformRaw>(), 128);
    assert_eq!(buffer.contents.len(), 384);
    assert_eq!(buffer.contents, ne_bytes(&transforms_to_words(&transforms.to_vec())));
    assert_eq!(buffer.usage, BufferUsages::vertex());
    assert_eq!(buffer.label, "mesh instance buffer");
}

#[test]
fn a_later_transform_for_the_same_handle_replaces_the_queued_one() {
    let camera = camera();
    let surface = surface();
    let params = RawParams { config: &surface, raw_camera: &camera };
    let mut bundles = Bundles::<StaticColorMaterial>::default();
    let id = bundles.add(bundle());
    bundles.instance(id, translation(1.0, 0.0, 0.0));
    bundles.instance(id, translation(5.0, 5.0, 5.0));
    bundles.process_queue(&params);
    assert_eq!(bundles.get(id).unwrap().instances, vec![translation(5.0, 5.0, 5.0)]);
}

#[test]
fn instance_for_an_unknown_handle_is_dropped() {
    let camera = camera();
    let surface = surface();
    let params = RawParams { config: &surface, raw_camera: &camera };

    let mut bundles = Bundles::<StaticColorMaterial>::default();
    bundles.instance(42, translation(1.0, 1.0, 1.0));
    bundles.process_queue(&params);
    assert!(bundles.get(42).is_none());
    assert_eq!(bundles.iter().count(), 0);

    let id = bundles.add(bundle());
    bundles.process_queue(&params);
    bundles.instance(id + 1, translation(1.0, 1.0, 1.0));
    bundles.process_queue(&params);
    assert_eq!(bundles.iter().count(), 1);
    assert!(bundles.get(id + 1).is_none());
    assert!(bundles.get(id).unwrap().instances.is_empty());

    bundles.process_queue(&params);
    assert!(bundles.get(id + 1).is_none());
}

#[test]
fn unknown_instance_leaves_no_trace_among_other_queued_work() {
    let camera = camera();
    let surface = surface();
    let params = RawParams { config: &surface, raw_camera: &camera };

    let mut with = Bundles::<StaticColorMaterial>::default();
    let mut without = Bundles::<StaticColorMaterial>::default();
    for bundles in [&mut with, &mut without] {
        let first = bundles.add(bundle());
        bundles.process_queue(&params);
        let second = bundles.add(bundle());
        assert_eq!((first, second), (0, 0));
        bundles.instance(second, translation(2.0, 0.0, 0.0));
    }
    with.instance(9, translation(1.0, 1.0, 1.0));
    with.process_queue(&params);
    without.process_queue(&params);

    assert!(with.get(9).is_none());
    assert_eq!(resident(&with), resident(&without));
    assert_eq!(with.get(0).unwrap().instances, vec![translation(2.0, 0.0, 0.0)]);
}

#[test]
fn resident_bundle_rebuilds_its_buffer_over_all_instances() {
    let camera = camera();
    let surface = surface();
    let params = RawParams { config: &surface, raw_camera: &camera };
    let mut raw = bundle().into_raw(&params);
    assert!(raw.instance_buffer.is_none());

    raw.update_buffer();
    assert_eq!(raw.instance_buffer.as_ref().unwrap().contents.len(), 0);

    raw.instance(translation(1.0, 2.0, 3.0));
    raw.instance(translation(4.0, 5.0, 6.0));
    assert_eq!(raw.instances.len(), 2);
    let contents = raw.instance_buffer.as_ref().unwrap().contents.clone();
    assert_eq!(contents.len(), 256);
    assert_eq!(&contents[48..52], &1.0f32.to_ne_bytes());
    assert_eq!(&contents[128 + 48..128 + 52], &4.0f32.to_ne_bytes());
    assert_eq!(&contents[128 + 56..128 + 60], &6.0f32.to_ne_bytes());
}

#[test]
fn end_to_end_one_indexed_instanced_draw() {
    let camera = camera();
    let surface = surface();
    let params: RawParams = (&surface, &camera).into();

    let mut bundles = Bundles::<StaticColorMaterial>::default();
    let mesh_handle = bundles.add(bundle());
    bundles.instance(mesh_handle, translation(1.0, 1.0, 1.0));
    bundles.process_queue(&params);

    let mut render_pass = empty_pass();
    for (_, bundle) in bundles.iter() {
        render_pass.bind_raw(0, bundle);
    }

    let raw = bundles.get(mesh_handle).unwrap();
    assert_eq!(
        render_pass.commands,
        vec![
            Command::SetPipeline { pipeline: &raw.material.pipeline },
            Command::SetBindGroup { index: 0, bind_group: &raw.material.bind_group },
            Command::SetVertexBuffer { slot: 0, buffer: &raw.mesh.vertex_buffer },
            Command::SetVertexBuffer { slot: 1, buffer: raw.instance_buffer.as_ref().unwrap() },
            Command::SetIndexBuffer {
                buffer: raw.mesh.index_buffer.as_ref().unwrap(),
                format: IndexFormat::Uint32,
            },
            Command::DrawIndexed { indices: 0..10, base_vertex: 0, instances: 0..1 },
        ]
    );
    let draws = render_pass
        .commands
        .iter()
        .filter(|c| matches!(c, Command::Draw { .. } | Command::DrawIndexed { .. }))
        .count();
    assert_eq!(draws, 1);
    assert_eq!(render_pass.label, Some("voxel pass"));
    assert_eq!(raw.instances, vec![translation(1.0, 1.0, 1.0)]);
}

#[test]
fn bundle_without_instances_is_drawn_once() {
    let camera = camera();
    let surface = surface();
    let params = RawParams { config: &surface, raw_camera: &camera };
    let raw = bundle().into_raw(&params);
    let mut render_pass = empty_pass();
    raw.bind_to_pass(2, &mut render_pass);
    assert_eq!(render_pass.commands.len(), 5);
    assert_eq!(
        render_pass.commands[1],
        Command::SetBindGroup { index: 2, bind_group: &raw.material.bind_group }
    );
    assert_eq!(
        render_pass.commands[2],
        Command::SetVertexBuffer { slot: 0, buffer: &raw.mesh.vertex_buffer }
    );
    assert_eq!(
        render_pass.commands[4],
        Command::DrawIndexed { indices: 0..10, base_vertex: 0, instances: 0..1 }
    );
}

#[test]
fn params_are_made_from_their_parts() {
    let camera = camera();
    let surface = surface();
    let params = RawParams::from((&surface, &camera));
    assert_eq!(*params.config, surface);
    assert_eq!(*params.raw_camera, camera);
}
