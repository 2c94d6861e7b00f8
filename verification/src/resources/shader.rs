//! The shader-module pool: a leaf pool keyed by label and source identifier.

use vstd::prelude::*;

use crate::error::ResourceError;
use crate::pool::{PoolDesc, PoolKey, PoolModel, StaticResourcePool};

verus! {

/// An opaque, copyable identifier for one shader module in the shader pool.
#[derive(Clone, Copy, PartialEq, Eq, Hash, Debug, Structural)]
pub struct ShaderHandle {
    index: usize,
}

impl PoolKey for ShaderHandle {
    closed spec fn index_spec(self) -> int {
        self.index as int
    }

    fn from_index(index: usize) -> (r: Self) {
        ShaderHandle { index }
    }

    fn index(self) -> (r: usize) {
        self.index
    }

    proof fn lemma_index_injective(a: Self, b: Self) {
    }
}

/// The identity of a shader descriptor: its label and source identifier as
/// character sequences.
pub ghost struct ShaderDescView {
    pub label: Seq<char>,
    pub source: Seq<char>,
}

/// What identifies a shader module: a debug label and a source identifier.
///
/// Two descriptors with equal label and source denote the same shader, even
/// when requested independently by unrelated consumers: the label is part of
/// the identity, not just the source.
#[derive(Clone, PartialEq, Eq, Hash, Debug)]
pub struct ShaderDesc {
    pub label: String,
    pub source: String,
}

impl View for ShaderDesc {
    type V = ShaderDescView;

    open spec fn view(&self) -> ShaderDescView {
        ShaderDescView { label: self.label@, source: self.source@ }
    }
}

impl PoolDesc for ShaderDesc {
    fn desc_eq(&self, other: &Self) -> (r: bool) {
        self.label == other.label && self.source == other.source
    }

    fn dup(&self) -> (r: Self) {
        ShaderDesc { label: self.label.clone(), source: self.source.clone() }
    }
}

impl ShaderDesc {
    /// A descriptor with the given label and source identifier.
    pub fn new(label: String, source: String) -> (r: Self)
        ensures
            r@.label == label@,
            r@.source == source@,
    {
        ShaderDesc { label, source }
    }
}

/// The pool of compiled shader modules, keyed by [`ShaderDesc`]. `S` is the
/// backend's shader module object type.
pub struct ShaderPool<S> {
    pub pool: StaticResourcePool<ShaderHandle, ShaderDesc, S>,
}

impl<S> View for ShaderPool<S> {
    type V = PoolModel<ShaderDescView, S>;

    open spec fn view(&self) -> PoolModel<ShaderDescView, S> {
        self.pool@
    }
}

impl<S> ShaderPool<S> {
    /// The inner pool is well-formed.
    pub open spec fn wf(self) -> bool {
        self.pool.wf()
    }

    /// Whether a handle designates a shader module of this pool.
    pub open spec fn handle_valid(self, h: ShaderHandle) -> bool {
        self.pool.handle_valid(h)
    }

    /// How many shader modules have been created so far.
    pub fn len(&self) -> (r: usize)
        ensures
            r as int == self@.len(),
    {
        self.pool.len()
    }

    /// Runtime check of `handle_valid`.
    pub fn contains_handle(&self, h: ShaderHandle) -> (r: bool)
        ensures
            r == self.handle_valid(h),
    {
        self.pool.contains_handle(h)
    }

    /// The memoizing constructor: on a hit, the recorded handle, the pool
    /// unchanged and `create` not invoked; on a miss, one invocation of
    /// `create`, whose failure leaves the pool untouched.
    pub fn get_or_create<F: FnOnce(&ShaderDesc) -> Result<S, ResourceError>>(
        &mut self,
        desc: &ShaderDesc,
        create: F,
    ) -> (r: Result<ShaderHandle, ResourceError>)
        requires
            old(self).wf(),
            call_requires(create, (desc,)),
        ensures
            final(self).wf(),
            final(self)@.len() >= old(self)@.len(),
            old(self)@.contains_key(desc@) ==> *final(self) == *old(self) && (r matches Ok(h)
                && h.index_spec() == old(self)@.index_of(desc@)),
            !old(self)@.contains_key(desc@) ==> match r {
                Ok(h) => h.index_spec() == old(self)@.len() && exists|res: S|
                    #[trigger] call_ensures(create, (desc,), Ok(res))
                        && final(self)@ == old(self)@.insert(desc@, res),
                Err(e) => *final(self) == *old(self) && call_ensures(create, (desc,), Err(e)),
            },
            r matches Ok(h) ==> final(self)@.contains_key(desc@)
                && h.index_spec() == final(self)@.index_of(desc@)
                && final(self).handle_valid(h),
    {
        self.pool.get_or_create(desc, create)
    }

    /// Resolves a previously issued handle to its shader module.
    pub fn get_resource(&self, handle: ShaderHandle) -> (r: &S)
        requires
            self.wf(),
            self.handle_valid(handle),
        ensures
            *r == self@.resource_at(handle.index_spec()),
    {
        self.pool.get_resource(handle)
    }
}

impl<S> Default for ShaderPool<S> {
    /// An empty shader pool.
    fn default() -> (r: Self)
        ensures
            r.wf(),
            r@.len() == 0,
    {
        ShaderPool { pool: StaticResourcePool::new() }
    }
}

} // verus!
