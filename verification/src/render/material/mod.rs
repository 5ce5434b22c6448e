//! Materials: what a mesh is drawn with.

use vstd::prelude::*;

use crate::render::gpu::{Command, Recorder, RenderPass, SurfaceConfiguration};

pub mod color;

verus! {

/// A resident material that binds itself at a place of its own choosing.
pub trait RawMaterial {
    /// The commands that binding records. Each material says which they
    /// are.
    spec fn material_commands<'a>(&'a self) -> Seq<Command<'a>>;

    /// Binds the material into the pass: records its commands after those
    /// that are there, and leaves the rest of the pass alone.
    fn bind_to_pass<'a>(&'a self, render_pass: &mut RenderPass<'a>)
        ensures
            final(render_pass).target() == old(render_pass).target(),
            final(render_pass).commands@ == old(render_pass).commands@
                + self.material_commands(),
    ;
}

/// A material on the CPU that can be made resident for a surface.
pub trait ToRawMaterial<T: RawMaterial> {
    /// Whether `raw` is the resident form of this material for a surface
    /// configured as `config`. Each material says what its resident form is.
    spec fn resident_as(&self, config: &SurfaceConfiguration, raw: &T) -> bool;

    /// Makes the material resident.
    fn to_raw(&self, config: &SurfaceConfiguration) -> (raw: T)
        ensures
            self.resident_as(config, &raw),
    ;
}

/// Binding a resident material into something that records.
pub trait RawMaterialRender<'a, T: RawMaterial>: Recorder<'a> {
    /// Binds `material`.
    fn bind_material(&mut self, material: &'a T)
        ensures
            final(self).same_target(old(self)),
            final(self).recorded() == old(self).recorded() + material.material_commands(),
    ;
}

impl<'a, T: RawMaterial> RawMaterialRender<'a, T> for RenderPass<'a> {
    fn bind_material(&mut self, material: &'a T) {
        material.bind_to_pass(self);
    }
}

} // verus!
