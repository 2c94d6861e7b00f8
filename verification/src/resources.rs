//! The concrete resource pools and the registry that aggregates them.
//!
//! Each pool is a thin specialization of [`crate::pool::StaticResourcePool`]
//! for one resource kind, generic in the backend object it stores: the
//! backend is an injected collaborator, and the pools' logic never looks
//! inside the objects it hands out.

pub mod pipeline_layout;
pub mod render_pipeline;
pub mod shader;

use vstd::prelude::*;

use self::pipeline_layout::PipelineLayoutPool;
use self::render_pipeline::GpuRenderPipelinePool;
use self::shader::ShaderPool;

verus! {

/// The registry: one pool per resource kind, behind a single facade handed
/// to rendering components. `S`, `L` and `P` are the backend's shader
/// module, pipeline layout and render pipeline object types.
pub struct RenderResourcePools<S, L, P> {
    pub pipeline_layouts: PipelineLayoutPool<L>,
    pub render_pipelines: GpuRenderPipelinePool<P>,
    pub shaders: ShaderPool<S>,
}

impl<S, L, P> RenderResourcePools<S, L, P> {
    /// All three pools are well-formed.
    pub open spec fn wf(self) -> bool {
        self.pipeline_layouts.wf() && self.render_pipelines.wf() && self.shaders.wf()
    }
}

impl<S, L, P> Default for RenderResourcePools<S, L, P> {
    /// A registry of three empty pools.
    fn default() -> (r: Self)
        ensures
            r.wf(),
            r.pipeline_layouts@.len() == 0,
            r.render_pipelines@.len() == 0,
            r.shaders@.len() == 0,
    {
        RenderResourcePools {
            pipeline_layouts: PipelineLayoutPool::default(),
            render_pipelines: GpuRenderPipelinePool::default(),
            shaders: ShaderPool::default(),
        }
    }
}

} // verus!
