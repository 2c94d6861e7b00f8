//! A renderer that owns one render pipeline for drawing a single triangle.

use vstd::prelude::*;

use crate::error::ResourceError;
use crate::pool::PoolKey;
use crate::resources::pipeline_layout::{
    PipelineLayoutDesc, PipelineLayoutDescView, PipelineLayoutHandle,
};
use crate::resources::render_pipeline::{
    GpuRenderPipelineHandle, RenderPipelineDesc, RenderPipelineDescView, TargetFormat,
};
use crate::resources::shader::{ShaderDesc, ShaderDescView, ShaderHandle};
use crate::resources::RenderResourcePools;

verus! {

/// The identity the triangle's shared shader is cached under.
pub open spec fn triangle_shader_id() -> ShaderDescView {
    ShaderDescView { label: "triangle.wgsl"@, source: "shaders/triangle.wgsl"@ }
}

/// The identity the triangle's pipeline layout is cached under.
pub open spec fn triangle_layout_id() -> PipelineLayoutDescView {
    PipelineLayoutDescView { label: "triangle_layout"@ }
}

/// Whether a registry already caches all three triangle resources for the
/// given target format: the layout, the shared shader, and a pipeline
/// composed from exactly their recorded handles under the triangle's label.
/// On such a registry, building the renderer is all cache hits: no
/// constructor runs, and success is guaranteed.
pub open spec fn triangle_resources_cached<S, L, P>(
    pools: RenderResourcePools<S, L, P>,
    swapchain_format: TargetFormat,
) -> bool {
    &&& pools.pipeline_layouts@.contains_key(triangle_layout_id())
    &&& pools.shaders@.contains_key(triangle_shader_id())
    &&& exists|k: RenderPipelineDescView|
        #[trigger] pools.render_pipelines@.contains_key(k) && k.label == "Wowza"@
            && k.vertex_shader.index_spec() == pools.shaders@.index_of(triangle_shader_id())
            && k.fragment_shader.index_spec() == pools.shaders@.index_of(triangle_shader_id())
            && k.pipeline_layout.index_spec() == pools.pipeline_layouts@.index_of(
            triangle_layout_id(),
        ) && k.target_format == swapchain_format
}

/// Holds the handle of the one pipeline the triangle is drawn with.
#[derive(Debug)]
pub struct TriangleRenderer {
    render_pipeline: GpuRenderPipelineHandle,
}

impl TriangleRenderer {
    /// The handle of the pipeline this renderer draws with.
    pub closed spec fn pipeline_spec(self) -> GpuRenderPipelineHandle {
        self.render_pipeline
    }

    /// The handle of the pipeline this renderer draws with. Drawing
    /// dereferences it through the registry's pipeline pool and creates
    /// nothing.
    pub fn pipeline_handle(&self) -> (r: GpuRenderPipelineHandle)
        ensures
            r == self.pipeline_spec(),
    {
        self.render_pipeline
    }

    /// Builds the renderer by the two-phase protocol: resolve the pipeline
    /// layout and the (shared) vertex and fragment shader through the leaf
    /// pools, then compose the pipeline descriptor from the resolved handles
    /// and ask the pipeline pool for it.
    ///
    /// The injected constructors stand for the backend: each is invoked at
    /// most once, only on a cache miss for its descriptor. Both shader
    /// requests use one descriptor, so they resolve to one handle and the
    /// shader is created at most once, however many pipelines come to share
    /// it. Every error returned is one that a constructor actually
    /// produced, and it leaves every pool as the preceding steps left it;
    /// on a registry that already caches the three triangle resources, no
    /// constructor runs and the build succeeds.
    pub fn new<S, L, P, FL, FS1, FS2, FP>(
        pools: &mut RenderResourcePools<S, L, P>,
        swapchain_format: TargetFormat,
        create_layout: FL,
        create_vertex_shader: FS1,
        create_fragment_shader: FS2,
        create_pipeline: FP,
    ) -> (r: Result<TriangleRenderer, ResourceError>) where
        FL: FnOnce(&PipelineLayoutDesc) -> Result<L, ResourceError>,
        FS1: FnOnce(&ShaderDesc) -> Result<S, ResourceError>,
        FS2: FnOnce(&ShaderDesc) -> Result<S, ResourceError>,
        FP: FnOnce(&RenderPipelineDesc, &S, &S, &L) -> Result<P, ResourceError>,

        requires
            old(pools).wf(),
            forall|d: &PipelineLayoutDesc| #[trigger] call_requires(create_layout, (d,)),
            forall|d: &ShaderDesc| #[trigger] call_requires(create_vertex_shader, (d,)),
            forall|d: &ShaderDesc| #[trigger] call_requires(create_fragment_shader, (d,)),
            forall|d: &RenderPipelineDesc, vs: &S, fs: &S, lay: &L|
                #[trigger] call_requires(create_pipeline, (d, vs, fs, lay)),
        ensures
            final(pools).wf(),
            // each pool gains at most one entry and loses none
            old(pools).shaders@.len() <= final(pools).shaders@.len() <= old(pools).shaders@.len()
                + 1,
            old(pools).pipeline_layouts@.len() <= final(pools).pipeline_layouts@.len() <= old(
                pools,
            ).pipeline_layouts@.len() + 1,
            old(pools).render_pipelines@.len() <= final(pools).render_pipelines@.len() <= old(
                pools,
            ).render_pipelines@.len() + 1,
            // success: the stored handle resolves, and the pipeline's
            // recorded identity is exactly the composed descriptor: the
            // triangle's label and format, one shared shader handle, and
            // the handles the resolve phase recorded
            r matches Ok(tr) ==> ({
                let k = final(pools).render_pipelines@.key_at(tr.pipeline_spec().index_spec());
                &&& final(pools).render_pipelines.handle_valid(tr.pipeline_spec())
                &&& k.label == "Wowza"@
                &&& k.target_format == swapchain_format
                &&& k.vertex_shader == k.fragment_shader
                &&& k.vertex_shader.index_spec() == final(pools).shaders@.index_of(
                    triangle_shader_id(),
                )
                &&& k.pipeline_layout.index_spec() == final(pools).pipeline_layouts@.index_of(
                    triangle_layout_id(),
                )
            }),
            // the identities this renderer caches under
            r matches Ok(_) ==> final(pools).shaders@.contains_key(triangle_shader_id())
                && final(pools).pipeline_layouts@.contains_key(triangle_layout_id()),
            // every error is one that an injected constructor actually
            // produced
            r matches Err(e) ==> (exists|d: &PipelineLayoutDesc|
                #[trigger] call_ensures(create_layout, (d,), Err(e))) || (exists|d: &ShaderDesc|
                #[trigger] call_ensures(create_vertex_shader, (d,), Err(e))) || (exists|
                d: &ShaderDesc,
            |
                #[trigger] call_ensures(create_fragment_shader, (d,), Err(e))) || (exists|
                d: &RenderPipelineDesc,
                vs: &S,
                fs: &S,
                lay: &L,
            |
                #[trigger] call_ensures(create_pipeline, (d, vs, fs, lay), Err(e))),
            // a warm cache obliges success: every request hits
            triangle_resources_cached(*old(pools), swapchain_format) ==> r matches Ok(_),
    {
        let layout_desc = PipelineLayoutDesc { label: "triangle_layout".to_owned() };
        proof {
            assert(layout_desc@ == triangle_layout_id());
        }
        let pipeline_layout_handle = match pools.pipeline_layouts.get_or_create(
            &layout_desc,
            create_layout,
        ) {
            Ok(h) => h,
            Err(e) => { return Err(e) },
        };

        let shared_shader_desc = ShaderDesc {
            label: "triangle.wgsl".to_owned(),
            source: "shaders/triangle.wgsl".to_owned(),
        };
        proof {
            assert(shared_shader_desc@ == triangle_shader_id());
        }
        let vertex_shader = match pools.shaders.get_or_create(
            &shared_shader_desc,
            create_vertex_shader,
        ) {
            Ok(h) => h,
            Err(e) => { return Err(e) },
        };
        let fragment_shader = match pools.shaders.get_or_create(
            &shared_shader_desc,
            create_fragment_shader,
        ) {
            Ok(h) => h,
            Err(e) => { return Err(e) },
        };
        proof {
            // both requests used one descriptor, so dedup made the handles one
            ShaderHandle::lemma_index_injective(vertex_shader, fragment_shader);
        }

        let desc = RenderPipelineDesc {
            label: "Wowza".to_owned(),
            vertex_shader,
            fragment_shader,
            pipeline_layout: pipeline_layout_handle,
            target_format: swapchain_format,
        };
        proof {
            // on a warm registry the composed descriptor is the cached one
            if triangle_resources_cached(*old(pools), swapchain_format) {
                let k = choose|k: RenderPipelineDescView|
                    #[trigger] old(pools).render_pipelines@.contains_key(k) && k.label == "Wowza"@
                        && k.vertex_shader.index_spec() == old(pools).shaders@.index_of(
                        triangle_shader_id(),
                    ) && k.fragment_shader.index_spec() == old(pools).shaders@.index_of(
                        triangle_shader_id(),
                    ) && k.pipeline_layout.index_spec() == old(pools).pipeline_layouts@.index_of(
                        triangle_layout_id(),
                    ) && k.target_format == swapchain_format;
                ShaderHandle::lemma_index_injective(k.vertex_shader, vertex_shader);
                ShaderHandle::lemma_index_injective(k.fragment_shader, fragment_shader);
                PipelineLayoutHandle::lemma_index_injective(
                    k.pipeline_layout,
                    pipeline_layout_handle,
                );
                assert(k == desc@);
            }
        }
        let render_pipeline = match pools.render_pipelines.get_or_create(
            &desc,
            &pools.shaders,
            &pools.pipeline_layouts,
            create_pipeline,
        ) {
            Ok(h) => h,
            Err(e) => { return Err(e) },
        };
        proof {
            // the slot the handle resolves to records the composed identity
            let m = pools.render_pipelines@;
            assert(m.contains_key(desc@));
            assert(0 <= m.index_of(desc@) < m.len() && m.key_at(m.index_of(desc@)) == desc@);
        }
        Ok(TriangleRenderer { render_pipeline })
    }
}

} // verus!
