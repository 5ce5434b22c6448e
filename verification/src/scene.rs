//! A scene: bundles seen through one camera. How a bundle enters it, how the
//! camera is moved, and how a frame of it is recorded.
//!
//! The material of a bundle is bound at group 0 and the camera at group 1,
//! which is the order of their layouts in the pipeline layout of a material.

use vstd::prelude::*;

use crate::render::builder::pass::RenderPassBuilder;
use crate::render::bundle::mesh::{Bundles, BundlesView, MeshBundle};
use crate::render::bytes::is_native_image;
use crate::render::camera::{identity_words, CameraBind, CameraPerspective};
use crate::render::gpu::{Command, RenderPass, SurfaceConfiguration};
use crate::render::handle::HandleId;
use crate::render::material::color::{is_color_layout, RawStaticColorMaterial, StaticColorMaterial};
use crate::render::raw::{IntoRawBinder, RawBinder, RawParams};
use crate::render::vertex::{matrix_words, TransformRaw};

verus! {

/// The group that the material of a bundle is bound at.
pub const MATERIAL_GROUP: u32 = 0;

/// The group that the camera is bound at.
pub const CAMERA_GROUP: u32 = 1;

/// The bundles of a scene and the camera that they are seen through.
pub struct Scene<T: IntoRawBinder> {
    pub bind_camera: CameraPerspective,
    pub raw_bind_camera: CameraBind,
    pub bundles: Bundles<T>,
}

/// `post` is what `pre` becomes when `bundle` is added under `id`,
/// `transform` is queued as its instance, and the queue is processed.
pub open spec fn spawned<T: IntoRawBinder>(
    pre: BundlesView<T>,
    params: &RawParams,
    bundle: MeshBundle<T>,
    transform: TransformRaw,
    id: HandleId,
    post: BundlesView<T>,
) -> bool {
    let added = BundlesView {
        queued_bundles: pre.queued_bundles.insert(id, bundle),
        queued_instances: pre.queued_instances,
        bundles: pre.bundles,
    };
    let instanced = BundlesView {
        queued_bundles: added.queued_bundles,
        queued_instances: added.queued_instances.insert(id, transform),
        bundles: added.bundles,
    };
    &&& pre.added(bundle, id, added)
    &&& added.instanced(id, transform, instanced)
    &&& instanced.processed(params, post)
}

impl<T: IntoRawBinder> Scene<T> {
    /// The uniform buffer of the camera holds the memory image of the
    /// view-projection matrix.
    pub open spec fn camera_in_step(&self) -> bool {
        &&& self.raw_bind_camera.bind_group.entries@.len() >= 1
        &&& is_native_image(
            self.raw_bind_camera.bind_group.entries@[0].resource.contents@,
            matrix_words(self.bind_camera.view_projection),
        )
    }

    /// A scene without bundles, seen through the identity.
    pub fn new() -> (scene: Self)
        ensures
            scene.bundles@.is_empty(),
            scene.bundles@.wf(),
            matrix_words(scene.bind_camera.view_projection) == identity_words(),
            scene.raw_bind_camera.carries(
                scene.raw_bind_camera.bind_group.entries@[0].resource.contents@,
            ),
            scene.camera_in_step(),
    {
        let bind_camera = CameraPerspective::new();
        let payload = bind_camera.to_bytes();
        let raw_bind_camera = bind_camera.create_raw_bind(payload.as_slice());
        Scene { bind_camera, raw_bind_camera, bundles: Bundles::default() }
    }

    /// Adds `bundle`, gives it `transform` as an instance, and processes the
    /// queue for a surface configured as `config`. Returns the handle of the
    /// bundle, which is then resident with that one instance.
    pub fn spawn(
        &mut self,
        config: &SurfaceConfiguration,
        bundle: MeshBundle<T>,
        transform: TransformRaw,
    ) -> (id: HandleId)
        requires
            old(self).bundles@.wf(),
        ensures
            final(self).bundles@.wf(),
            final(self).bind_camera == old(self).bind_camera,
            final(self).raw_bind_camera == old(self).raw_bind_camera,
            spawned(
                old(self).bundles@,
                &(RawParams { config, raw_camera: &old(self).raw_bind_camera }),
                bundle,
                transform,
                id,
                final(self).bundles@,
            ),
            final(self).bundles@.bundles.contains_key(id),
            final(self).bundles@.bundles[id].instances@ == seq![transform],
    {
        let id = self.bundles.add(bundle);
        self.bundles.instance(id, transform);
        let params = RawParams { config, raw_camera: &self.raw_bind_camera };
        self.bundles.process_queue(&params);
        proof {
            let post = self.bundles@;
            assert(post.bundles.dom().contains(id));
            assert(post.bundles.contains_key(id));
        }
        id
    }

    /// Takes a new view-projection matrix and overwrites the camera's uniform
    /// buffer with its memory image, in place. Returns the bytes written, for
    /// the device to follow; or nothing, and leaves the buffer as it is, if
    /// the buffer cannot take them.
    pub fn update_camera(&mut self, view_projection: [[u32; 4]; 4]) -> (payload: Option<Vec<u8>>)
        ensures
            final(self).bind_camera.view_projection == view_projection,
            final(self).bundles == old(self).bundles,
            match payload {
                Some(bytes) => {
                    &&& is_native_image(bytes@, matrix_words(view_projection))
                    &&& old(self).raw_bind_camera.accepts(bytes@)
                    &&& final(self).raw_bind_camera.accepts(bytes@)
                    &&& final(self).raw_bind_camera.bind_group.entries@[0].resource.contents@
                        == CameraBind::written(
                        old(self).raw_bind_camera.bind_group.entries@[0].resource.contents@,
                        bytes@,
                    )
                    &&& final(self).raw_bind_camera.bind_group_layout
                        == old(self).raw_bind_camera.bind_group_layout
                },
                None => {
                    &&& final(self).raw_bind_camera == old(self).raw_bind_camera
                    &&& old(self).raw_bind_camera.bind_group.entries@.len() == 0
                        || old(self).raw_bind_camera.bind_group.entries@[0].resource.contents@.len()
                        < 64
                },
            },
            old(self).raw_bind_camera.bind_group.entries@.len() >= 1 && old(
                self,
            ).raw_bind_camera.bind_group.entries@[0].resource.contents@.len() == 64
                ==> payload is Some && final(self).camera_in_step(),
    {
        self.bind_camera.update_view_proj(view_projection);
        let bytes = self.bind_camera.to_bytes();
        if self.raw_bind_camera.update_buffer(bytes.as_slice()) {
            proof {
                let before = old(self).raw_bind_camera.bind_group.entries@[0].resource.contents@;
                if before.len() == 64 {
                    assert(CameraBind::written(before, bytes@) =~= bytes@);
                }
            }
            Some(bytes)
        } else {
            None
        }
    }

    /// The commands of a frame in which the resident bundles are bound in
    /// the order `order`: the camera at group 1, then the bundles at group 0.
    pub open spec fn frame_commands<'a>(&'a self, order: Seq<HandleId>) -> Seq<Command<'a>> {
        self.raw_bind_camera.bind_commands(CAMERA_GROUP) + self.bundles@.bind_commands(
            order,
            MATERIAL_GROUP,
        )
    }

    /// Records a frame: begins the pass that `pass` describes, binds the
    /// camera, and binds every resident bundle. Returns the pass, and the
    /// handles of the bundles in the order in which they were bound: each
    /// once, in no particular order.
    pub fn record<'a>(&'a self, pass: RenderPassBuilder<'a>) -> (frame: (
        RenderPass<'a>,
        Vec<HandleId>,
    ))
        ensures
            frame.0.target() == (pass.label, pass.color_attachments@, pass.depth_stencil_attachment),
            frame.1@.no_duplicates(),
            frame.1@.to_set() == self.bundles@.bundles.dom(),
            frame.0.commands@ == self.frame_commands(frame.1@),
    {
        let mut render_pass = pass.begin();
        self.raw_bind_camera.bind_to_pass(CAMERA_GROUP, &mut render_pass);
        let order = self.bundles.bind_to_pass(MATERIAL_GROUP, &mut render_pass);
        assert(render_pass.commands@ =~= self.frame_commands(order@));
        (render_pass, order)
    }
}

/// The frame of a scene with a single resident bundle: the camera is bound at
/// group 1, then the bundle at group 0, and that is all.
pub proof fn lemma_frame_of_one_bundle<T: IntoRawBinder>(
    scene: Scene<T>,
    id: HandleId,
    order: Seq<HandleId>,
)
    requires
        scene.bundles@.bundles.dom() == set![id],
        order.no_duplicates(),
        order.to_set() == scene.bundles@.bundles.dom(),
    ensures
        order == seq![id],
        scene.frame_commands(order) == scene.raw_bind_camera.bind_commands(CAMERA_GROUP)
            + scene.bundles@.bundles[id].bind_commands(MATERIAL_GROUP),
{
    assert(order.len() == 1) by {
        if order.len() == 0 {
            assert(order.to_set().contains(id));
        } else if order.len() > 1 {
            assert(order.to_set().contains(order[0]));
            assert(order.to_set().contains(order[1]));
        }
    }
    assert(order.to_set().contains(order[0]));
    assert(order =~= seq![id]);
    let view = scene.bundles@;
    assert(order.drop_last() =~= Seq::<HandleId>::empty());
    assert(view.bind_commands(order.drop_last(), MATERIAL_GROUP) =~= Seq::<Command>::empty());
    assert(view.bind_commands(order, MATERIAL_GROUP) =~= view.bundles[id].bind_commands(
        MATERIAL_GROUP,
    )) by {
        reveal_with_fuel(BundlesView::bind_commands, 2);
    }
}

/// The groups that a frame binds at are the groups of the material's pipeline
/// layout: its layout at the material's group is the layout of the
/// material's bind group, and its layout at the camera's group is the layout
/// of the camera's bind group.
pub proof fn lemma_groups_follow_layout(
    material: StaticColorMaterial,
    params: &RawParams,
    raw: RawStaticColorMaterial,
)
    requires
        material.converts_to(params, &raw),
    ensures
        raw.pipeline.layout is Some,
        raw.pipeline.layout->0.bind_group_layouts@.len() == 2,
        is_color_layout(raw.bind_group.layout),
        is_color_layout(raw.pipeline.layout->0.bind_group_layouts@[MATERIAL_GROUP as int]),
        raw.pipeline.layout->0.bind_group_layouts@[CAMERA_GROUP as int].label
            == params.raw_camera.bind_group_layout.label,
        raw.pipeline.layout->0.bind_group_layouts@[CAMERA_GROUP as int].entries@
            == params.raw_camera.bind_group_layout.entries@,
{
}

} // verus!
