//! Handles: what a caller keeps to refer to something it has added.

use std::marker::PhantomData;
use vstd::prelude::*;

verus! {

/// The number behind a handle.
pub type HandleId = usize;

/// A handle to a `T`.
#[derive(Debug)]
pub struct Handle<T> {
    id: HandleId,
    phantom: PhantomData<T>,
}

impl<T> Handle<T> {
    /// The number behind the handle.
    pub closed spec fn spec_id(&self) -> HandleId {
        self.id
    }

    /// The handle with the number `id`.
    pub fn new(id: HandleId) -> (handle: Self)
        ensures
            handle.spec_id() == id,
    {
        Self { id, phantom: PhantomData }
    }

    /// The number behind the handle.
    #[verifier::when_used_as_spec(spec_id)]
    pub fn id(&self) -> (id: HandleId)
        ensures
            id == self.spec_id(),
    {
        self.id
    }
}

} // verus!
