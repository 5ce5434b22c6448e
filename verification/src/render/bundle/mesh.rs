//! Mesh bundles, their instances, and the collection that takes them from the
//! queue to residence.
//!
//! A bundle is queued, made resident by the next processing of the queue, and
//! from then on gains one instance for each transform queued for it. The
//! instance buffer of a resident bundle is rebuilt whole whenever an instance
//! is added, so that it always holds exactly the instances there are.

use core::ops::Range;
use std::collections::hash_map::Iter;
use std::collections::HashMap;
use vstd::prelude::*;
use vstd::std_specs::hash::*;
use vstd::std_specs::iter::IteratorSpec;

use crate::render::bytes::{is_native_image, words_to_bytes};
use crate::render::gpu::{Buffer, BufferUsages, Command, RenderPass};
use crate::render::handle::HandleId;
use crate::render::mesh::{draw_command, Mesh, MeshRender, RawMesh};
use crate::render::raw::{IntoRawBinder, RawBinder, RawParams};
use crate::render::vertex::{transform_words, transforms_to_words, TransformRaw};

verus! {

/// A mesh and its material on the CPU.
#[derive(Debug, PartialEq, Eq)]
pub struct MeshBundle<T: IntoRawBinder> {
    pub mesh: Mesh,
    pub transform: Option<TransformRaw>,
    pub material: T,
}

/// A resident bundle: the resident mesh and material, the instances in the
/// order in which they were added, and the buffer that holds them.
#[derive(Debug, PartialEq, Eq)]
pub struct RawMeshBundle<T: RawBinder> {
    pub mesh: RawMesh,
    pub material: T,
    pub instances: Vec<TransformRaw>,
    pub instance_buffer: Option<Buffer>,
}

/// `buffer` is the instance buffer of these instances: a vertex buffer with
/// the memory image of all of them, in order.
pub open spec fn is_instance_buffer(buffer: Buffer, instances: Seq<TransformRaw>) -> bool {
    &&& buffer.label@ == "mesh instance buffer"@
    &&& buffer.usage == BufferUsages::spec_vertex()
    &&& is_native_image(buffer.contents@, transform_words(instances))
}

impl<T: RawBinder> RawMeshBundle<T> {
    /// The instance buffer, where there is one, holds exactly the instances;
    /// where there is none, there are no instances.
    pub open spec fn wf(&self) -> bool {
        match self.instance_buffer {
            Some(buffer) => is_instance_buffer(buffer, self.instances@),
            None => self.instances@.len() == 0,
        }
    }

    /// Adds an instance after those that are there and rebuilds the instance
    /// buffer over all of them.
    pub fn instance(&mut self, instance: TransformRaw)
        ensures
            final(self).mesh == old(self).mesh,
            final(self).material == old(self).material,
            final(self).instances@ == old(self).instances@.push(instance),
            final(self).instance_buffer is Some,
            final(self).wf(),
    {
        self.instances.push(instance);
        self.update_buffer();
    }

    /// Rebuilds the instance buffer from all the instances.
    pub fn update_buffer(&mut self)
        ensures
            final(self).mesh == old(self).mesh,
            final(self).material == old(self).material,
            final(self).instances == old(self).instances,
            final(self).instance_buffer is Some,
            final(self).wf(),
    {
        let words = transforms_to_words(&self.instances);
        let buffer = Buffer {
            label: "mesh instance buffer",
            usage: BufferUsages::vertex(),
            contents: words_to_bytes(&words),
        };
        self.instance_buffer = Some(buffer);
    }
}

impl<T: RawBinder> RawBinder for RawMeshBundle<T> {
    /// The material is bound at `idx`. Then the mesh is drawn from stream 0:
    /// once where there is no instance buffer, and else once for each
    /// instance, the instance buffer being stream 1.
    open spec fn bind_commands<'a>(&'a self, idx: u32) -> Seq<Command<'a>> {
        self.material.bind_commands(idx) + match self.instance_buffer {
            Some(buffer) => self.mesh.instanced_commands(0, &self.instances, &buffer),
            None => self.mesh.single_commands(0),
        }
    }

    fn bind_to_pass<'a>(&'a self, idx: u32, render_pass: &mut RenderPass<'a>) {
        self.material.bind_to_pass(idx, render_pass);
        match &self.instance_buffer {
            Some(buffer) => {
                render_pass.render_instanced_mesh(0, &self.instances, buffer, &self.mesh);
            },
            None => {
                render_pass.render_single_mesh(0, &self.mesh);
            },
        }
        assert(render_pass.commands@ =~= old(render_pass).commands@ + self.bind_commands(idx));
    }
}

impl<T: IntoRawBinder> IntoRawBinder for MeshBundle<T> {
    type RawBinder = RawMeshBundle<<T as IntoRawBinder>::RawBinder>;

    /// The mesh and the material are resident, and there is no instance yet.
    open spec fn converts_to(&self, params: &RawParams, raw: &Self::RawBinder) -> bool {
        &&& self.mesh.uploads_as(&raw.mesh)
        &&& self.material.converts_to(params, &raw.material)
        &&& raw.instances@ == Seq::<TransformRaw>::empty()
        &&& raw.instance_buffer is None
    }

    fn into_raw(&self, params: &RawParams) -> (raw: Self::RawBinder) {
        let raw_mesh = self.mesh.to_raw();
        let raw_mat = self.material.into_raw(params);

        RawMeshBundle {
            mesh: raw_mesh,
            material: raw_mat,
            instances: Vec::new(),
            instance_buffer: None,
        }
    }
}

/// The bundles of a scene: those queued, the instances queued for them, and
/// those that are resident, each kind by handle.
#[derive(Debug)]
pub struct Bundles<T: IntoRawBinder> {
    queued_bundles: HashMap<HandleId, MeshBundle<T>>,
    queued_instances: HashMap<HandleId, TransformRaw>,
    bundles: HashMap<HandleId, RawMeshBundle<T::RawBinder>>,
}

/// What a collection of bundles holds.
pub struct BundlesView<T: IntoRawBinder> {
    pub queued_bundles: Map<HandleId, MeshBundle<T>>,
    pub queued_instances: Map<HandleId, TransformRaw>,
    pub bundles: Map<HandleId, RawMeshBundle<T::RawBinder>>,
}

impl<T: IntoRawBinder> BundlesView<T> {
    /// The queued bundles have the handles from 0 up to their number, and the
    /// instance buffer of every resident bundle holds exactly its instances.
    pub open spec fn wf(self) -> bool {
        &&& self.queued_bundles.dom().finite()
        &&& self.queued_instances.dom().finite()
        &&& self.bundles.dom().finite()
        &&& forall|id: HandleId|
            self.queued_bundles.contains_key(id) <==> id < self.queued_bundles.len()
        &&& forall|id: HandleId| #[trigger]
            self.bundles.contains_key(id) ==> self.bundles[id].wf()
    }

    /// Nothing is queued and nothing is resident.
    pub open spec fn is_empty(self) -> bool {
        &&& self.queued_bundles == Map::<HandleId, MeshBundle<T>>::empty()
        &&& self.queued_instances == Map::<HandleId, TransformRaw>::empty()
        &&& self.bundles == Map::<HandleId, RawMeshBundle<T::RawBinder>>::empty()
    }

    /// `post` is this collection after `bundle` has been added and has been
    /// given the handle `id`: the handle is the number of bundles that were
    /// queued, and the bundle is queued under it.
    pub open spec fn added(self, bundle: MeshBundle<T>, id: HandleId, post: Self) -> bool {
        &&& id == self.queued_bundles.len()
        &&& post.queued_bundles == self.queued_bundles.insert(id, bundle)
        &&& post.queued_instances == self.queued_instances
        &&& post.bundles == self.bundles
    }

    /// `post` is this collection after `transform` has been queued as an
    /// instance of `id`. A transform that was queued for `id` before gives
    /// way to it.
    pub open spec fn instanced(self, id: HandleId, transform: TransformRaw, post: Self) -> bool {
        &&& post.queued_bundles == self.queued_bundles
        &&& post.queued_instances == self.queued_instances.insert(id, transform)
        &&& post.bundles == self.bundles
    }

    /// `raw` is what is resident under `id` once the queue of this collection
    /// has been processed, `id` being queued or resident in it.
    ///
    /// A queued bundle has been made resident, without instances, in place of
    /// what was resident under its handle; any other resident bundle is as it
    /// was. On top of that, a transform queued for `id` has been added after
    /// the instances there were, and the instance buffer holds them all.
    pub open spec fn resident_after(
        self,
        params: &RawParams,
        id: HandleId,
        raw: RawMeshBundle<T::RawBinder>,
    ) -> bool {
        if self.queued_instances.contains_key(id) {
            &&& raw.instance_buffer is Some
            &&& raw.wf()
            &&& if self.queued_bundles.contains_key(id) {
                &&& self.queued_bundles[id].mesh.uploads_as(&raw.mesh)
                &&& self.queued_bundles[id].material.converts_to(params, &raw.material)
                &&& raw.instances@ == seq![self.queued_instances[id]]
            } else {
                &&& raw.mesh == self.bundles[id].mesh
                &&& raw.material == self.bundles[id].material
                &&& raw.instances@ == self.bundles[id].instances@.push(self.queued_instances[id])
            }
        } else if self.queued_bundles.contains_key(id) {
            self.queued_bundles[id].converts_to(params, &raw)
        } else {
            raw == self.bundles[id]
        }
    }

    /// `post` is this collection after its queue has been processed: nothing
    /// is queued any more, the resident bundles are those that were resident
    /// or queued, and each is what `resident_after` says. A transform queued
    /// for a handle that is neither is dropped.
    pub open spec fn processed(self, params: &RawParams, post: Self) -> bool {
        &&& post.queued_bundles == Map::<HandleId, MeshBundle<T>>::empty()
        &&& post.queued_instances == Map::<HandleId, TransformRaw>::empty()
        &&& post.bundles.dom() == self.bundles.dom().union(self.queued_bundles.dom())
        &&& forall|id: HandleId| #[trigger]
            post.bundles.contains_key(id) ==> self.resident_after(params, id, post.bundles[id])
    }

    /// The commands that bind the resident bundles with the handles `order`
    /// at `idx`, one bundle after another in that order.
    pub open spec fn bind_commands<'a>(&'a self, order: Seq<HandleId>, idx: u32) -> Seq<
        Command<'a>,
    >
        decreases order.len(),
    {
        if order.len() == 0 {
            Seq::empty()
        } else {
            self.bind_commands(order.drop_last(), idx) + self.bundles[order.last()].bind_commands(
                idx,
            )
        }
    }
}

impl<T: IntoRawBinder> View for Bundles<T> {
    type V = BundlesView<T>;

    closed spec fn view(&self) -> BundlesView<T> {
        BundlesView {
            queued_bundles: self.queued_bundles@,
            queued_instances: self.queued_instances@,
            bundles: self.bundles@,
        }
    }
}

impl<T: IntoRawBinder> Default for Bundles<T> {
    fn default() -> (bundles: Self)
        ensures
            bundles@.is_empty(),
            bundles@.wf(),
    {
        let bundles = Self {
            queued_bundles: HashMap::new(),
            queued_instances: HashMap::new(),
            bundles: HashMap::new(),
        };
        assert(bundles@.queued_bundles.len() == 0);
        bundles
    }
}

/// A key is among the first `j + 1` exactly if it is among the first `j` or is
/// the one after them.
proof fn lemma_take_next(keys: Seq<HandleId>, j: int, k: HandleId)
    requires
        0 <= j < keys.len(),
    ensures
        keys.take(j + 1).contains(k) <==> keys.take(j).contains(k) || keys[j] == k,
{
    let before = keys.take(j);
    let with_next = keys.take(j + 1);
    if before.contains(k) {
        let i = choose|i: int| 0 <= i < before.len() && before[i] == k;
        assert(with_next[i] == k);
    }
    if keys[j] == k {
        assert(with_next[j] == k);
    }
    if with_next.contains(k) {
        let i = choose|i: int| 0 <= i < with_next.len() && with_next[i] == k;
        if i < j {
            assert(before[i] == k);
        }
    }
}

/// The keys of a map, each once, in the order in which the map is walked.
fn collect_keys<V>(map: &HashMap<HandleId, V>) -> (keys: Vec<HandleId>)
    ensures
        keys@.no_duplicates(),
        keys@.to_set() == map@.dom(),
{
    broadcast use vstd::std_specs::hash::group_hash_axioms;

    let mut keys: Vec<HandleId> = Vec::new();
    for k in it: map.keys()
        invariant
            keys@.len() == it.index(),
            it.seq() == spec_keys_iter(map).remaining(),
            forall|j: int| 0 <= j < it.index() ==> keys@[j] == *it.seq()[j],
    {
        keys.push(*k);
    }
    assert(keys@ =~= spec_keys_iter(map).remaining().unref());
    keys
}

impl<T: IntoRawBinder> Bundles<T> {
    /// Queues `bundle` and returns its handle: the number of bundles that
    /// were queued before it, which is the handle of none of them.
    pub fn add(&mut self, bundle: MeshBundle<T>) -> (id: HandleId)
        requires
            old(self)@.wf(),
        ensures
            final(self)@.wf(),
            old(self)@.added(bundle, id, final(self)@),
            !old(self)@.queued_bundles.contains_key(id),
            final(self)@.queued_bundles.len() == old(self)@.queued_bundles.len() + 1,
    {
        broadcast use vstd::std_specs::hash::group_hash_axioms;

        let id: HandleId = self.queued_bundles.len();
        self.queued_bundles.insert(id, bundle);
        id
    }

    /// Queues `transform` as an instance of the bundle with handle `id`.
    pub fn instance(&mut self, id: HandleId, transform: TransformRaw)
        requires
            old(self)@.wf(),
        ensures
            final(self)@.wf(),
            old(self)@.instanced(id, transform, final(self)@),
    {
        broadcast use vstd::std_specs::hash::group_hash_axioms;

        self.queued_instances.insert(id, transform);
    }

    /// Processes the queue: makes every queued bundle resident, then adds
    /// every queued transform to its resident bundle.
    pub fn process_queue(&mut self, params: &RawParams)
        requires
            old(self)@.wf(),
        ensures
            final(self)@.wf(),
            old(self)@.processed(params, final(self)@),
    {
        broadcast use vstd::std_specs::hash::group_hash_axioms;

        let count = self.queued_bundles.len();
        let mut id: HandleId = 0;
        while id < count
            invariant
                id <= count,
                count == old(self)@.queued_bundles.len(),
                old(self)@.wf(),
                self.queued_bundles@ == old(self)@.queued_bundles,
                self.queued_instances@ == old(self)@.queued_instances,
                self.bundles@.dom().finite(),
                forall|k: HandleId|
                    self.bundles@.contains_key(k) <==> old(self)@.bundles.contains_key(k) || k
                        < id,
                forall|k: HandleId|
                    k < id ==> old(self)@.queued_bundles[k].converts_to(
                        params,
                        &#[trigger] self.bundles@[k],
                    ),
                forall|k: HandleId|
                    k >= id && old(self)@.bundles.contains_key(k) ==> #[trigger] self.bundles@[k]
                        == old(self)@.bundles[k],
            decreases count - id,
        {
            match self.queued_bundles.get(&id) {
                Some(bundle) => {
                    let raw = bundle.into_raw(params);
                    self.bundles.insert(id, raw);
                },
                None => {
                    assert(old(self)@.queued_bundles.contains_key(id));
                },
            }
            id += 1;
        }
        self.queued_bundles.clear();

        let ghost uploaded = self.bundles@;
        let keys = collect_keys(&self.queued_instances);
        let mut j: usize = 0;
        while j < keys.len()
            invariant
                j <= keys@.len(),
                keys@.no_duplicates(),
                keys@.to_set() == old(self)@.queued_instances.dom(),
                self.queued_bundles@ == Map::<HandleId, MeshBundle<T>>::empty(),
                self.queued_instances@ == old(self)@.queued_instances,
                self.bundles@.dom().finite(),
                self.bundles@.dom() == uploaded.dom(),
                forall|k: HandleId|
                    uploaded.contains_key(k) && !keys@.take(j as int).contains(k)
                        ==> #[trigger] self.bundles@[k] == uploaded[k],
                forall|k: HandleId|
                    uploaded.contains_key(k) && keys@.take(j as int).contains(k) ==> {
                        let raw = #[trigger] self.bundles@[k];
                        &&& raw.instance_buffer is Some
                        &&& raw.wf()
                        &&& raw.mesh == uploaded[k].mesh
                        &&& raw.material == uploaded[k].material
                        &&& raw.instances@ == uploaded[k].instances@.push(
                            old(self)@.queued_instances[k],
                        )
                    },
            decreases keys@.len() - j,
        {
            let key = keys[j];
            proof {
                assert(keys@.to_set().contains(key));
                assert forall|k: HandleId|
                    keys@.take(j + 1).contains(k) <==> keys@.take(j as int).contains(k) || key
                        == k by {
                    lemma_take_next(keys@, j as int, k);
                }
                let before = keys@.take(j as int);
                if before.contains(key) {
                    let i = choose|i: int| 0 <= i < before.len() && before[i] == key;
                    assert(keys@[i] == keys@[j as int]);
                }
            }
            let transform = match self.queued_instances.get(&key) {
                Some(transform) => Some(*transform),
                None => None,
            };
            if let Some(transform) = transform {
                if let Some(mut raw_bundle) = self.bundles.remove(&key) {
                    raw_bundle.instance(transform);
                    self.bundles.insert(key, raw_bundle);
                    assert(self.bundles@.dom() =~= uploaded.dom());
                }
            }
            j += 1;
        }
        self.queued_instances.clear();

        proof {
            assert(keys@.take(keys@.len() as int) =~= keys@);
            let pre = old(self)@;
            let post = self@;
            assert(post.bundles.dom() =~= pre.bundles.dom().union(pre.queued_bundles.dom()));
            assert forall|k: HandleId| #[trigger] post.bundles.contains_key(k) implies pre.resident_after(
                params,
                k,
                post.bundles[k],
            ) by {
                assert(uploaded.contains_key(k));
                assert(pre.queued_instances.contains_key(k) <==> keys@.contains(k));
            }
            assert forall|k: HandleId| #[trigger] post.bundles.contains_key(k) implies post.bundles[k].wf() by {
                assert(pre.resident_after(params, k, post.bundles[k]));
            }
        }
    }

    /// The resident bundle with handle `id`, if there is one.
    pub fn get(&self, id: HandleId) -> (bundle: Option<&RawMeshBundle<T::RawBinder>>)
        ensures
            match bundle {
                Some(raw) => self@.bundles.contains_key(id) && self@.bundles[id] == *raw,
                None => !self@.bundles.contains_key(id),
            },
    {
        broadcast use vstd::std_specs::hash::group_hash_axioms;

        self.bundles.get(&id)
    }

    /// Binds every resident bundle into the pass at `idx`, one after
    /// another, and returns their handles in the order in which they were
    /// bound: each handle once, in no particular order.
    pub fn bind_to_pass<'a>(&'a self, idx: u32, render_pass: &mut RenderPass<'a>) -> (order: Vec<
        HandleId,
    >)
        ensures
            order@.no_duplicates(),
            order@.to_set() == self@.bundles.dom(),
            final(render_pass).target() == old(render_pass).target(),
            final(render_pass).commands@ == old(render_pass).commands@ + self@.bind_commands(
                order@,
                idx,
            ),
    {
        broadcast use vstd::std_specs::hash::group_hash_axioms;

        let mut order: Vec<HandleId> = Vec::new();
        let ghost walk = spec_hash_map_iter(&self.bundles).remaining();
        for pair in it: self.bundles.iter()
            invariant
                it.seq() == walk,
                walk == spec_hash_map_iter(&self.bundles).remaining(),
                order@.len() == it.index(),
                forall|j: int| 0 <= j < it.index() ==> order@[j] == *walk[j].0,
                render_pass.target() == old(render_pass).target(),
                render_pass.commands@ == old(render_pass).commands@ + self@.bind_commands(
                    order@,
                    idx,
                ),
        {
            let (id, bundle) = pair;
            let ghost bound = order@;
            assert(self@.bundles[*id] == *bundle);
            bundle.bind_to_pass(idx, render_pass);
            order.push(*id);
            proof {
                assert(order@.drop_last() =~= bound);
                assert(render_pass.commands@ =~= old(render_pass).commands@
                    + self@.bind_commands(order@, idx));
            }
        }
        proof {
            assert(walk.no_duplicates());
            assert forall|i: int, j: int|
                0 <= i < order@.len() && 0 <= j < order@.len() && i != j implies order@[i]
                != order@[j] by {
                if order@[i] == order@[j] {
                    assert(*walk[i].1 == self@.bundles[*walk[i].0]);
                    assert(*walk[j].1 == self@.bundles[*walk[j].0]);
                    assert(walk[i] == walk[j]);
                }
            }
            assert forall|k: HandleId| self@.bundles.dom().contains(k) implies order@.to_set().contains(
                k,
            ) by {
                assert(walk.contains((&k, &self@.bundles[k])));
                let j = choose|j: int| 0 <= j < walk.len() && walk[j] == (&k, &self@.bundles[k]);
                assert(order@[j] == k);
            }
            assert forall|k: HandleId| order@.to_set().contains(k) implies self@.bundles.dom().contains(
                k,
            ) by {
                let j = choose|j: int| 0 <= j < order@.len() && order@[j] == k;
                assert(self@.bundles.contains_key(*walk[j].0));
            }
            assert(order@.to_set() =~= self@.bundles.dom());
        }
        order
    }

    /// Walks the resident bundles with their handles, each once, in no
    /// particular order.
    pub fn iter(&self) -> (iter: Iter<'_, usize, RawMeshBundle<<T as IntoRawBinder>::RawBinder>>)
        ensures
            iter.remaining().no_duplicates(),
            iter.remaining().unref().to_set() == self@.bundles.kv_pairs(),
    {
        broadcast use vstd::std_specs::hash::group_hash_axioms;

        self.bundles.iter()
    }
}

/// Processing the queue again, with nothing queued in between, changes
/// nothing: the resident bundles stay as they are, their instances with them.
pub proof fn lemma_process_queue_idempotent<T: IntoRawBinder>(
    start: BundlesView<T>,
    once: BundlesView<T>,
    twice: BundlesView<T>,
    first: &RawParams,
    second: &RawParams,
)
    requires
        start.processed(first, once),
        once.processed(second, twice),
    ensures
        twice.bundles == once.bundles,
        twice.queued_bundles == once.queued_bundles,
        twice.queued_instances == once.queued_instances,
{
    assert(twice.bundles.dom() =~= once.bundles.dom());
    assert forall|id: HandleId| #[trigger]
        twice.bundles.contains_key(id) implies twice.bundles[id] == once.bundles[id] by {
        assert(once.resident_after(second, id, twice.bundles[id]));
    }
    assert(twice.bundles =~= once.bundles);
}

/// A bundle is made resident once. Processing the queue leaves the mesh and
/// the material of a resident bundle as they are, unless a bundle queued
/// under the same handle takes its place; and the instances it had stay the
/// first of its instances, in their order.
pub proof fn lemma_resident_is_kept<T: IntoRawBinder>(
    start: BundlesView<T>,
    done: BundlesView<T>,
    id: HandleId,
    params: &RawParams,
)
    requires
        start.bundles.contains_key(id),
        !start.queued_bundles.contains_key(id),
        start.processed(params, done),
    ensures
        done.bundles.contains_key(id),
        done.bundles[id].mesh == start.bundles[id].mesh,
        done.bundles[id].material == start.bundles[id].material,
        start.bundles[id].instances@.is_prefix_of(done.bundles[id].instances@),
        !start.queued_instances.contains_key(id) ==> done.bundles[id] == start.bundles[id],
{
    assert(done.bundles.dom().contains(id));
    assert(start.resident_after(params, id, done.bundles[id]));
}

/// After `i` bundles have been added to an empty collection, the queued
/// handles are the numbers below `i`.
proof fn lemma_queue_after_adds<T: IntoRawBinder>(
    states: Seq<BundlesView<T>>,
    bundles: Seq<MeshBundle<T>>,
    handles: Seq<HandleId>,
    i: int,
)
    requires
        states.len() == bundles.len() + 1,
        handles.len() == bundles.len(),
        states[0].is_empty(),
        forall|j: int|
            0 <= j < bundles.len() ==> (#[trigger] states[j]).added(
                bundles[j],
                handles[j],
                states[j + 1],
            ),
        0 <= i <= bundles.len(),
    ensures
        states[i].queued_bundles.dom().finite(),
        states[i].queued_bundles.len() == i,
        forall|k: HandleId| states[i].queued_bundles.contains_key(k) <==> k < i,
    decreases i,
{
    if i > 0 {
        lemma_queue_after_adds(states, bundles, handles, i - 1);
        assert(states[i - 1].added(bundles[i - 1], handles[i - 1], states[i]));
    }
}

/// Bundles added one after another to an empty collection get the handles
/// 0, 1, 2 and so on, in the order in which they are added; so no two of
/// them get the same.
pub proof fn lemma_handles_count_up<T: IntoRawBinder>(
    states: Seq<BundlesView<T>>,
    bundles: Seq<MeshBundle<T>>,
    handles: Seq<HandleId>,
)
    requires
        states.len() == bundles.len() + 1,
        handles.len() == bundles.len(),
        states[0].is_empty(),
        forall|j: int|
            0 <= j < bundles.len() ==> (#[trigger] states[j]).added(
                bundles[j],
                handles[j],
                states[j + 1],
            ),
    ensures
        forall|i: int| 0 <= i < handles.len() ==> handles[i] == i,
        handles.no_duplicates(),
{
    assert forall|i: int| 0 <= i < handles.len() implies handles[i] == i by {
        lemma_queue_after_adds(states, bundles, handles, i);
        assert(states[i].added(bundles[i], handles[i], states[i + 1]));
    }
}

/// The instances that the bundle `id` starts a round with: none if it is
/// queued, since it becomes resident without any, and else those that are
/// resident.
pub open spec fn instances_before<T: IntoRawBinder>(
    start: BundlesView<T>,
    id: HandleId,
) -> Seq<TransformRaw> {
    if start.queued_bundles.contains_key(id) {
        Seq::empty()
    } else {
        start.bundles[id].instances@
    }
}

/// A transform queued for a bundle that is queued or resident is the last
/// instance of that bundle once the queue has been processed, after all the
/// instances it had; and the instance buffer holds 128 bytes for each.
pub proof fn lemma_instance_is_appended<T: IntoRawBinder>(
    start: BundlesView<T>,
    queued: BundlesView<T>,
    done: BundlesView<T>,
    id: HandleId,
    transform: TransformRaw,
    params: &RawParams,
)
    requires
        start.queued_bundles.contains_key(id) || start.bundles.contains_key(id),
        start.instanced(id, transform, queued),
        queued.processed(params, done),
    ensures
        done.bundles.contains_key(id),
        !done.queued_bundles.contains_key(id),
        done.bundles[id].instances@ == instances_before(start, id).push(transform),
        done.bundles[id].instance_buffer is Some,
        is_instance_buffer(done.bundles[id].instance_buffer->0, done.bundles[id].instances@),
        done.bundles[id].instance_buffer->0.contents@.len() == 128
            * done.bundles[id].instances@.len(),
{
    assert(done.bundles.dom().contains(id));
    assert(queued.resident_after(params, id, done.bundles[id]));
    assert(queued.queued_instances.contains_key(id));
}

/// Rounds of queueing one transform for `id` and processing the queue add
/// the transforms to the bundle's instances in the order of the rounds.
/// `before[i]` is the collection before round `i` and `queued[i]` the one
/// with the transform of round `i` queued.
proof fn lemma_rounds<T: IntoRawBinder>(
    id: HandleId,
    transforms: Seq<TransformRaw>,
    before: Seq<BundlesView<T>>,
    queued: Seq<BundlesView<T>>,
    params: &RawParams,
    n: int,
)
    requires
        before.len() == transforms.len() + 1,
        queued.len() == transforms.len(),
        before[0].queued_bundles.contains_key(id) || before[0].bundles.contains_key(id),
        forall|i: int|
            0 <= i < transforms.len() ==> (#[trigger] before[i]).instanced(
                id,
                transforms[i],
                queued[i],
            ),
        forall|i: int|
            0 <= i < transforms.len() ==> (#[trigger] queued[i]).processed(params, before[i + 1]),
        1 <= n <= transforms.len(),
    ensures
        before[n].bundles.contains_key(id),
        !before[n].queued_bundles.contains_key(id),
        before[n].bundles[id].instances@ == instances_before(before[0], id) + transforms.take(n),
        before[n].bundles[id].instance_buffer is Some,
        before[n].bundles[id].instance_buffer->0.contents@.len() == 128
            * before[n].bundles[id].instances@.len(),
    decreases n,
{
    if n > 1 {
        lemma_rounds(id, transforms, before, queued, params, n - 1);
    }
    assert(before[n - 1].instanced(id, transforms[n - 1], queued[n - 1]));
    assert(queued[n - 1].processed(params, before[n]));
    lemma_instance_is_appended(
        before[n - 1],
        queued[n - 1],
        before[n],
        id,
        transforms[n - 1],
        params,
    );
    if n > 1 {
        assert(transforms.take(n) =~= transforms.take(n - 1).push(transforms[n - 1]));
    } else {
        assert(transforms.take(1) =~= seq![transforms[0]]);
    }
    assert(before[n].bundles[id].instances@ =~= instances_before(before[0], id) + transforms.take(
        n,
    ));
}

/// Instances accumulate. After rounds of queueing one transform for a bundle
/// and processing the queue, the bundle has the instances it started with
/// and after them the transforms of all the rounds, in order; and its
/// instance buffer holds 128 bytes for each of them. `before[i]` is the
/// collection before round `i` and `queued[i]` the one with the transform of
/// round `i` queued.
pub proof fn lemma_instances_accumulate<T: IntoRawBinder>(
    id: HandleId,
    transforms: Seq<TransformRaw>,
    before: Seq<BundlesView<T>>,
    queued: Seq<BundlesView<T>>,
    params: &RawParams,
)
    requires
        transforms.len() >= 1,
        before.len() == transforms.len() + 1,
        queued.len() == transforms.len(),
        before[0].queued_bundles.contains_key(id) || before[0].bundles.contains_key(id),
        forall|i: int|
            0 <= i < transforms.len() ==> (#[trigger] before[i]).instanced(
                id,
                transforms[i],
                queued[i],
            ),
        forall|i: int|
            0 <= i < transforms.len() ==> (#[trigger] queued[i]).processed(params, before[i + 1]),
    ensures
        before.last().bundles.contains_key(id),
        before.last().bundles[id].instances@ == instances_before(before[0], id) + transforms,
        before.last().bundles[id].instance_buffer is Some,
        before.last().bundles[id].instance_buffer->0.contents@.len() == 128 * (instances_before(
            before[0],
            id,
        ).len() + transforms.len()),
{
    lemma_rounds(id, transforms, before, queued, params, transforms.len() as int);
    assert(transforms.take(transforms.len() as int) =~= transforms);
}

/// A transform queued for a handle that is neither queued nor resident is
/// dropped when the queue is processed. No bundle becomes resident under the
/// handle, and the transform leaves no trace: what comes of the queue with it
/// is what comes of the queue without it. So where nothing else was queued,
/// the resident bundles are exactly as they were.
pub proof fn lemma_unknown_instance_is_dropped<T: IntoRawBinder>(
    start: BundlesView<T>,
    queued: BundlesView<T>,
    done: BundlesView<T>,
    id: HandleId,
    transform: TransformRaw,
    params: &RawParams,
)
    requires
        !start.queued_bundles.contains_key(id),
        !start.bundles.contains_key(id),
        start.instanced(id, transform, queued),
        queued.processed(params, done),
    ensures
        !done.bundles.contains_key(id),
        done.queued_instances == Map::<HandleId, TransformRaw>::empty(),
        start.processed(params, done),
        start.queued_bundles == Map::<HandleId, MeshBundle<T>>::empty() && start.queued_instances
            == Map::<HandleId, TransformRaw>::empty() ==> done.bundles == start.bundles,
{
    assert(!done.bundles.dom().contains(id));
    assert forall|k: HandleId| #[trigger] done.bundles.contains_key(k) implies start.resident_after(
        params,
        k,
        done.bundles[k],
    ) by {
        assert(queued.resident_after(params, k, done.bundles[k]));
        assert(k != id);
    }
    if start.queued_bundles == Map::<HandleId, MeshBundle<T>>::empty() && start.queued_instances
        == Map::<HandleId, TransformRaw>::empty() {
        assert(done.bundles.dom() =~= start.bundles.dom());
        assert forall|k: HandleId| #[trigger]
            done.bundles.contains_key(k) implies done.bundles[k] == start.bundles[k] by {
            assert(queued.resident_after(params, k, done.bundles[k]));
        }
        assert(done.bundles =~= start.bundles);
    }
}

/// The instances of a resident bundle are seen by its very next draw. The
/// commands that bind the bundle end in one draw of its mesh: once where
/// there is no instance buffer, and else, the instance buffer being stream 1,
/// once for each of the instances there are.
pub proof fn lemma_draw_shows_instances<T: RawBinder>(raw: RawMeshBundle<T>, idx: u32)
    requires
        raw.wf(),
    ensures
        raw.bind_commands(idx).last() == draw_command(
            raw.mesh.num_indices,
            raw.mesh.num_vertices,
            Range {
                start: 0u32,
                end: if raw.instance_buffer is Some {
                    raw.instances@.len() as u32
                } else {
                    1u32
                },
            },
        ),
        raw.instance_buffer matches Some(buffer) ==> raw.bind_commands(idx).contains(
            Command::SetVertexBuffer { slot: 1, buffer: &buffer },
        ),
        raw.bind_commands(idx).contains(
            Command::SetVertexBuffer { slot: 0, buffer: &raw.mesh.vertex_buffer },
        ),
{
    let material = raw.material.bind_commands(idx);
    match raw.instance_buffer {
        Some(buffer) => {
            let mesh = raw.mesh.instanced_commands(0, &raw.instances, &buffer);
            assert(raw.bind_commands(idx) == material + mesh);
            assert((material + mesh)[material.len() as int] == mesh[0]);
            assert((material + mesh)[material.len() as int + 1] == mesh[1]);
        },
        None => {
            let mesh = raw.mesh.single_commands(0);
            assert(raw.bind_commands(idx) == material + mesh);
            assert((material + mesh)[material.len() as int] == mesh[0]);
        },
    }
}

} // verus!
