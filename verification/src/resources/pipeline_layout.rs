//! The pipeline-layout pool: a leaf pool keyed by a layout descriptor.

use vstd::prelude::*;

use crate::error::ResourceError;
use crate::pool::{PoolDesc, PoolKey, PoolModel, StaticResourcePool};

verus! {

/// An opaque, copyable identifier for one pipeline layout in the layout pool.
#[derive(Clone, Copy, PartialEq, Eq, Hash, Debug, Structural)]
pub struct PipelineLayoutHandle {
    index: usize,
}

impl PoolKey for PipelineLayoutHandle {
    closed spec fn index_spec(self) -> int {
        self.index as int
    }

    fn from_index(index: usize) -> (r: Self) {
        PipelineLayoutHandle { index }
    }

    fn index(self) -> (r: usize) {
        self.index
    }

    proof fn lemma_index_injective(a: Self, b: Self) {
    }
}

/// The identity of a pipeline-layout descriptor.
pub ghost struct PipelineLayoutDescView {
    pub label: Seq<char>,
}

/// What identifies a pipeline layout. The concrete layout shape is a backend
/// detail; the descriptor carries the equality-comparable identity under
/// which a layout is cached.
#[derive(Clone, PartialEq, Eq, Hash, Debug)]
pub struct PipelineLayoutDesc {
    pub label: String,
}

impl View for PipelineLayoutDesc {
    type V = PipelineLayoutDescView;

    open spec fn view(&self) -> PipelineLayoutDescView {
        PipelineLayoutDescView { label: self.label@ }
    }
}

impl PoolDesc for PipelineLayoutDesc {
    fn desc_eq(&self, other: &Self) -> (r: bool) {
        self.label == other.label
    }

    fn dup(&self) -> (r: Self) {
        PipelineLayoutDesc { label: self.label.clone() }
    }
}

/// The pool of pipeline layouts, keyed by [`PipelineLayoutDesc`]. `L` is the
/// backend's pipeline layout object type.
pub struct PipelineLayoutPool<L> {
    pool: StaticResourcePool<PipelineLayoutHandle, PipelineLayoutDesc, L>,
}

impl<L> View for PipelineLayoutPool<L> {
    type V = PoolModel<PipelineLayoutDescView, L>;

    closed spec fn view(&self) -> PoolModel<PipelineLayoutDescView, L> {
        self.pool@
    }
}

impl<L> PipelineLayoutPool<L> {
    /// The inner pool is well-formed.
    pub closed spec fn wf(self) -> bool {
        self.pool.wf()
    }

    /// Whether a handle designates a pipeline layout of this pool.
    pub open spec fn handle_valid(self, h: PipelineLayoutHandle) -> bool {
        0 <= h.index_spec() < self@.len()
    }

    /// How many pipeline layouts have been created so far.
    pub fn len(&self) -> (r: usize)
        ensures
            r as int == self@.len(),
    {
        self.pool.len()
    }

    /// Runtime check of `handle_valid`.
    pub fn contains_handle(&self, h: PipelineLayoutHandle) -> (r: bool)
        ensures
            r == self.handle_valid(h),
    {
        self.pool.contains_handle(h)
    }

    /// The memoizing constructor: on a hit, the recorded handle, the pool
    /// unchanged and `create` not invoked; on a miss, one invocation of
    /// `create`, whose failure leaves the pool untouched.
    pub fn get_or_create<F: FnOnce(&PipelineLayoutDesc) -> Result<L, ResourceError>>(
        &mut self,
        desc: &PipelineLayoutDesc,
        create: F,
    ) -> (r: Result<PipelineLayoutHandle, ResourceError>)
        requires
            old(self).wf(),
            call_requires(create, (desc,)),
        ensures
            final(self).wf(),
            final(self)@.len() >= old(self)@.len(),
            old(self)@.contains_key(desc@) ==> *final(self) == *old(self) && (r matches Ok(h)
                && h.index_spec() == old(self)@.index_of(desc@)),
            !old(self)@.contains_key(desc@) ==> match r {
                Ok(h) => h.index_spec() == old(self)@.len() && exists|res: L|
                    #[trigger] call_ensures(create, (desc,), Ok(res))
                        && final(self)@ == old(self)@.insert(desc@, res),
                Err(e) => *final(self) == *old(self) && call_ensures(create, (desc,), Err(e)),
            },
            r matches Ok(h) ==> final(self)@.contains_key(desc@)
                && h.index_spec() == final(self)@.index_of(desc@)
                && final(self).handle_valid(h),
    {
        self.pool.get_or_create(desc, create)
    }

    /// Resolves a previously issued handle to its pipeline layout.
    pub fn get_resource(&self, handle: PipelineLayoutHandle) -> (r: &L)
        requires
            self.wf(),
            self.handle_valid(handle),
        ensures
            *r == self@.resource_at(handle.index_spec()),
    {
        self.pool.get_resource(handle)
    }
}

impl<L> Default for PipelineLayoutPool<L> {
    /// An empty pipeline-layout pool.
    fn default() -> (r: Self)
        ensures
            r.wf(),
            r@.len() == 0,
    {
        PipelineLayoutPool { pool: StaticResourcePool::new() }
    }
}

} // verus!
