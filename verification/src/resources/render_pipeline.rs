//! The render-pipeline pool: a composite pool whose descriptors embed
//! handles issued by the leaf pools.
//!
//! Obtaining a pipeline is a two-phase protocol. Resolve phase: the caller
//! asks the shader and pipeline-layout pools to `get_or_create` every
//! dependency, obtaining handles. Compose phase: the caller builds a
//! [`RenderPipelineDesc`] from those handles and calls `get_or_create` here,
//! which on a genuine miss looks the dependency resources up by handle —
//! never creating them — and hands them to the injected constructor.

use vstd::prelude::*;

use crate::error::ResourceError;
use crate::pool::{lemma_index_of_unique, PoolDesc, PoolKey, PoolModel, StaticResourcePool};
use crate::resources::pipeline_layout::{PipelineLayoutHandle, PipelineLayoutPool};
use crate::resources::shader::{ShaderHandle, ShaderPool};

verus! {

/// An opaque, copyable identifier for one render pipeline in the pipeline
/// pool.
#[derive(Clone, Copy, PartialEq, Eq, Hash, Debug, Structural)]
pub struct GpuRenderPipelineHandle {
    index: usize,
}

impl PoolKey for GpuRenderPipelineHandle {
    closed spec fn index_spec(self) -> int {
        self.index as int
    }

    fn from_index(index: usize) -> (r: Self) {
        GpuRenderPipelineHandle { index }
    }

    fn index(self) -> (r: usize) {
        self.index
    }

    proof fn lemma_index_injective(a: Self, b: Self) {
    }
}

/// A plain code standing for the backend's texture format: part of a
/// pipeline's identity. The embedding that drives the backend keeps one code
/// per format.
#[derive(Clone, Copy, PartialEq, Eq, Hash, Debug, Structural)]
pub struct TargetFormat {
    pub code: u32,
}

/// The identity of a render-pipeline descriptor: the label, the resolved
/// dependency handles and the target format.
pub ghost struct RenderPipelineDescView {
    pub label: Seq<char>,
    pub vertex_shader: ShaderHandle,
    pub fragment_shader: ShaderHandle,
    pub pipeline_layout: PipelineLayoutHandle,
    pub target_format: TargetFormat,
}

/// What identifies a render pipeline.
///
/// The descriptor holds handles, not raw sub-descriptors, of its
/// dependencies: a pipeline's identity is a function of the resolved
/// identity of its dependencies. The caller resolves shader and layout
/// handles through the leaf pools before constructing this descriptor.
#[derive(Clone, PartialEq, Eq, Hash, Debug)]
pub struct RenderPipelineDesc {
    /// Debug label
    pub label: String,
    pub vertex_shader: ShaderHandle,
    pub fragment_shader: ShaderHandle,
    pub pipeline_layout: PipelineLayoutHandle,
    pub target_format: TargetFormat,
}

impl View for RenderPipelineDesc {
    type V = RenderPipelineDescView;

    open spec fn view(&self) -> RenderPipelineDescView {
        RenderPipelineDescView {
            label: self.label@,
            vertex_shader: self.vertex_shader,
            fragment_shader: self.fragment_shader,
            pipeline_layout: self.pipeline_layout,
            target_format: self.target_format,
        }
    }
}

impl PoolDesc for RenderPipelineDesc {
    fn desc_eq(&self, other: &Self) -> (r: bool) {
        self.label == other.label && self.vertex_shader == other.vertex_shader
            && self.fragment_shader == other.fragment_shader && self.pipeline_layout
            == other.pipeline_layout && self.target_format == other.target_format
    }

    fn dup(&self) -> (r: Self) {
        RenderPipelineDesc {
            label: self.label.clone(),
            vertex_shader: self.vertex_shader,
            fragment_shader: self.fragment_shader,
            pipeline_layout: self.pipeline_layout,
            target_format: self.target_format,
        }
    }
}

/// The pool of render pipelines, keyed by [`RenderPipelineDesc`]. `P` is the
/// backend's render pipeline object type.
pub struct GpuRenderPipelinePool<P> {
    pub pool: StaticResourcePool<GpuRenderPipelineHandle, RenderPipelineDesc, P>,
}

impl<P> View for GpuRenderPipelinePool<P> {
    type V = PoolModel<RenderPipelineDescView, P>;

    open spec fn view(&self) -> PoolModel<RenderPipelineDescView, P> {
        self.pool@
    }
}

impl<P> GpuRenderPipelinePool<P> {
    /// The inner pool is well-formed.
    pub open spec fn wf(self) -> bool {
        self.pool.wf()
    }

    /// Whether a handle designates a render pipeline of this pool.
    pub open spec fn handle_valid(self, h: GpuRenderPipelineHandle) -> bool {
        self.pool.handle_valid(h)
    }

    /// How many render pipelines have been created so far.
    pub fn len(&self) -> (r: usize)
        ensures
            r as int == self@.len(),
    {
        self.pool.len()
    }

    /// Runtime check of `handle_valid`.
    pub fn contains_handle(&self, h: GpuRenderPipelineHandle) -> (r: bool)
        ensures
            r == self.handle_valid(h),
    {
        self.pool.contains_handle(h)
    }

    /// The compose phase of the two-phase protocol.
    ///
    /// The caller must already have resolved the descriptor's dependency
    /// handles through the sibling pools — which are taken read-only, so
    /// composite creation can look dependencies up but can never create
    /// them. On a miss, the dependency resources are dereferenced and handed
    /// to `create`, which runs exactly once; its failure leaves this pool
    /// untouched.
    pub fn get_or_create<S, L, F: FnOnce(
        &RenderPipelineDesc,
        &S,
        &S,
        &L,
    ) -> Result<P, ResourceError>>(
        &mut self,
        desc: &RenderPipelineDesc,
        shader_pool: &ShaderPool<S>,
        pipeline_layout_pool: &PipelineLayoutPool<L>,
        create: F,
    ) -> (r: Result<GpuRenderPipelineHandle, ResourceError>)
        requires
            old(self).wf(),
            shader_pool.wf(),
            pipeline_layout_pool.wf(),
            shader_pool.handle_valid(desc.vertex_shader),
            shader_pool.handle_valid(desc.fragment_shader),
            pipeline_layout_pool.handle_valid(desc.pipeline_layout),
            forall|vs: &S, fs: &S, lay: &L|
                *vs == shader_pool@.resource_at(desc.vertex_shader.index_spec()) && *fs
                    == shader_pool@.resource_at(desc.fragment_shader.index_spec()) && *lay
                    == pipeline_layout_pool@.resource_at(desc.pipeline_layout.index_spec())
                    ==> #[trigger] call_requires(create, (desc, vs, fs, lay)),
        ensures
            final(self).wf(),
            final(self)@.len() >= old(self)@.len(),
            old(self)@.contains_key(desc@) ==> *final(self) == *old(self) && (r matches Ok(h)
                && h.index_spec() == old(self)@.index_of(desc@)),
            !old(self)@.contains_key(desc@) ==> match r {
                Ok(h) => h.index_spec() == old(self)@.len() && exists|res: P, vs: &S, fs: &S, lay: &L|
                    *vs == shader_pool@.resource_at(desc.vertex_shader.index_spec()) && *fs
                        == shader_pool@.resource_at(desc.fragment_shader.index_spec()) && *lay
                        == pipeline_layout_pool@.resource_at(desc.pipeline_layout.index_spec())
                        && #[trigger] call_ensures(create, (desc, vs, fs, lay), Ok(res))
                        && final(self)@ == old(self)@.insert(desc@, res),
                Err(e) => *final(self) == *old(self) && (exists|vs: &S, fs: &S, lay: &L|
                    *vs == shader_pool@.resource_at(desc.vertex_shader.index_spec()) && *fs
                        == shader_pool@.resource_at(desc.fragment_shader.index_spec()) && *lay
                        == pipeline_layout_pool@.resource_at(desc.pipeline_layout.index_spec())
                        && #[trigger] call_ensures(create, (desc, vs, fs, lay), Err(e))),
            },
            r matches Ok(h) ==> final(self)@.contains_key(desc@)
                && h.index_spec() == final(self)@.index_of(desc@)
                && final(self).handle_valid(h),
    {
        match self.pool.find(desc) {
            Some(h) => Ok(h),
            None => {
                // compose phase: dereference the already-created
                // dependencies; creating them here is forbidden by design
                let vs = shader_pool.get_resource(desc.vertex_shader);
                let fs = shader_pool.get_resource(desc.fragment_shader);
                let lay = pipeline_layout_pool.get_resource(desc.pipeline_layout);
                match create(desc, vs, fs, lay) {
                    Ok(res) => {
                        let ghost gres = res;
                        let h = self.pool.insert_new(desc, res);
                        proof {
                            self.pool.lemma_wf_model();
                            lemma_index_of_unique(self.pool@, desc@, old(self)@.len());
                        }
                        Ok(h)
                    },
                    Err(e) => Err(e),
                }
            },
        }
    }

    /// Resolves a previously issued handle to its render pipeline.
    pub fn get_resource(&self, handle: GpuRenderPipelineHandle) -> (r: &P)
        requires
            self.wf(),
            self.handle_valid(handle),
        ensures
            *r == self@.resource_at(handle.index_spec()),
    {
        self.pool.get_resource(handle)
    }
}

impl<P> Default for GpuRenderPipelinePool<P> {
    /// An empty render-pipeline pool.
    fn default() -> (r: Self)
        ensures
            r.wf(),
            r@.len() == 0,
    {
        GpuRenderPipelinePool { pool: StaticResourcePool::new() }
    }
}

} // verus!
