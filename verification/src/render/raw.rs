//! Making things resident, and binding what is resident into a pass.

use vstd::prelude::*;

use crate::render::camera::CameraBind;
use crate::render::gpu::{Command, Recorder, RenderPass, SurfaceConfiguration};

verus! {

/// What a conversion to resident form is given: the configuration of the
/// surface and the camera's bind group.
#[derive(Clone, Copy, Debug)]
pub struct RawParams<'a> {
    pub config: &'a SurfaceConfiguration,
    pub raw_camera: &'a CameraBind,
}

impl<'a> From<(&'a SurfaceConfiguration, &'a CameraBind)> for RawParams<'a> {
    fn from(parts: (&'a SurfaceConfiguration, &'a CameraBind)) -> (params: Self) {
        RawParams { config: parts.0, raw_camera: parts.1 }
    }
}

impl<'a> vstd::std_specs::convert::FromSpecImpl<(&'a SurfaceConfiguration, &'a CameraBind)> for RawParams<'a> {
    open spec fn obeys_from_spec() -> bool {
        true
    }

    open spec fn from_spec(parts: (&'a SurfaceConfiguration, &'a CameraBind)) -> Self {
        RawParams { config: parts.0, raw_camera: parts.1 }
    }
}

/// Something resident that can be bound into a render pass.
pub trait RawBinder where Self: Sized {
    /// The commands that binding at `idx` records. Each binder says which
    /// they are.
    spec fn bind_commands<'a>(&'a self, idx: u32) -> Seq<Command<'a>>;

    /// Binds this into the pass at `idx`: records its commands after those
    /// that are there, and leaves the rest of the pass alone.
    fn bind_to_pass<'a>(&'a self, idx: u32, render_pass: &mut RenderPass<'a>)
        ensures
            final(render_pass).target() == old(render_pass).target(),
            final(render_pass).commands@ == old(render_pass).commands@ + self.bind_commands(idx),
    ;
}

/// Something on the CPU that can be made resident.
pub trait IntoRawBinder where Self: Sized {
    /// The resident form.
    type RawBinder: RawBinder;

    /// Whether `raw` is the resident form of this under `params`. Each type
    /// says what its resident form is.
    spec fn converts_to(&self, params: &RawParams, raw: &Self::RawBinder) -> bool;

    /// Makes this resident. Every call builds the resident form anew.
    fn into_raw(&self, params: &RawParams) -> (raw: Self::RawBinder)
        ensures
            self.converts_to(params, &raw),
    ;
}

/// Binding something resident into something that records.
pub trait RawBindingRender<'a, T: RawBinder>: Recorder<'a> {
    /// Binds `value` at `idx`.
    fn bind_raw(&mut self, idx: u32, value: &'a T)
        ensures
            final(self).same_target(old(self)),
            final(self).recorded() == old(self).recorded() + value.bind_commands(idx),
    ;
}

impl<'a, T: RawBinder> RawBindingRender<'a, T> for RenderPass<'a> {
    fn bind_raw(&mut self, idx: u32, value: &'a T) {
        value.bind_to_pass(idx, self);
    }
}

} // verus!
