//! The wgpu-backed embedding of the pools.
//!
//! The backend device is an injected, opaque collaborator. Every creation
//! call below runs inside wgpu error scopes, so a failure the device reports
//! (bad shader source, a malformed layout, incompatible pipeline state, out
//! of memory) comes back as a typed error instead of reaching wgpu's fatal
//! default handler. Everything this module states about the backend goes
//! through the trusted declarations below; the pool and protocol logic
//! around them is verified.

use vstd::prelude::*;

use std::borrow::Cow;
use std::future::Future;
use std::sync::Arc;

use crate::error::ResourceError;
use crate::renderers::triangle::{triangle_resources_cached, TriangleRenderer};
use crate::resources::pipeline_layout::PipelineLayoutDesc;
use crate::resources::render_pipeline::{RenderPipelineDesc, TargetFormat};
use crate::resources::shader::ShaderDesc;
use crate::resources::RenderResourcePools;

verus! {

#[verifier::external_type_specification]
#[verifier::external_body]
pub struct ExDevice(wgpu::Device);

#[verifier::external_type_specification]
#[verifier::external_body]
pub struct ExQueue(wgpu::Queue);

#[verifier::external_type_specification]
#[verifier::external_body]
pub struct ExAdapter(wgpu::Adapter);

#[verifier::external_type_specification]
#[verifier::external_body]
pub struct ExShaderModule(wgpu::ShaderModule);

#[verifier::external_type_specification]
#[verifier::external_body]
pub struct ExPipelineLayout(wgpu::PipelineLayout);

#[verifier::external_type_specification]
#[verifier::external_body]
pub struct ExRenderPipeline(wgpu::RenderPipeline);

#[verifier::external_type_specification]
#[verifier::external_body]
pub struct ExTextureFormat(wgpu::TextureFormat);

#[verifier::external_type_specification]
#[verifier::external_body]
pub struct ExError(wgpu::Error);

/// Relies on wgpu's `Device::pop_error_scope`: pops the innermost error
/// scope and yields the first error it caught, if any. On the native
/// backend the returned future is immediately ready
/// (`PopErrorScopeFuture = Ready<Option<Error>>`), so one poll suffices.
#[verifier::external_body]
fn take_scope_error(device: &wgpu::Device) -> Option<wgpu::Error> {
    let mut scope = Box::pin(device.pop_error_scope());
    let waker = std::task::Waker::noop();
    let mut cx = std::task::Context::from_waker(waker);
    match scope.as_mut().poll(&mut cx) {
        std::task::Poll::Ready(e) => e,
        std::task::Poll::Pending => None,
    }
}

/// Relies on wgpu `Error`'s `Display` implementation for the report text.
#[verifier::external_body]
fn error_text(e: &wgpu::Error) -> String {
    e.to_string()
}

/// Relies on wgpu's `Device::create_shader_module` to compile WGSL. The
/// call runs inside an out-of-memory and a validation error scope; wgpu
/// classifies every reported error under one of those two filters, so a
/// failure (bad source included) is returned, not passed to the fatal
/// default handler.
#[verifier::external_body]
fn compile_shader_module(
    device: &wgpu::Device,
    label: &str,
    source_text: &str,
) -> Result<wgpu::ShaderModule, wgpu::Error> {
    device.push_error_scope(wgpu::ErrorFilter::OutOfMemory);
    device.push_error_scope(wgpu::ErrorFilter::Validation);
    let module = device.create_shader_module(wgpu::ShaderModuleDescriptor {
        label: Some(label),
        source: wgpu::ShaderSource::Wgsl(Cow::Borrowed(source_text)),
    });
    match take_scope_error(device).or(take_scope_error(device)) {
        None => Ok(module),
        Some(e) => Err(e),
    }
}

/// Relies on wgpu's `Device::create_pipeline_layout` to construct a layout
/// with no bind groups and no push-constant ranges, which is all the layout
/// descriptor models. Error scopes as in `compile_shader_module`: a
/// device-reported failure is returned, not panicked.
#[verifier::external_body]
fn build_pipeline_layout(device: &wgpu::Device, label: &str) -> Result<
    wgpu::PipelineLayout,
    wgpu::Error,
> {
    device.push_error_scope(wgpu::ErrorFilter::OutOfMemory);
    device.push_error_scope(wgpu::ErrorFilter::Validation);
    let layout = device.create_pipeline_layout(&wgpu::PipelineLayoutDescriptor {
        label: Some(label),
        bind_group_layouts: &[],
        push_constant_ranges: &[],
    });
    match take_scope_error(device).or(take_scope_error(device)) {
        None => Ok(layout),
        Some(e) => Err(e),
    }
}

/// Relies on wgpu's `Device::create_render_pipeline` to compose a pipeline
/// from the already-created shader module and layout, targeting one color
/// format. Error scopes as in `compile_shader_module`: a validation failure
/// (a missing entry point, an incompatible format) is returned, not
/// panicked.
#[verifier::external_body]
fn build_render_pipeline(
    device: &wgpu::Device,
    label: &str,
    vertex_shader: &wgpu::ShaderModule,
    fragment_shader: &wgpu::ShaderModule,
    layout: &wgpu::PipelineLayout,
    format: wgpu::TextureFormat,
) -> Result<wgpu::RenderPipeline, wgpu::Error> {
    device.push_error_scope(wgpu::ErrorFilter::OutOfMemory);
    device.push_error_scope(wgpu::ErrorFilter::Validation);
    let pipeline = device.create_render_pipeline(&wgpu::RenderPipelineDescriptor {
        label: Some(label),
        layout: Some(layout),
        vertex: wgpu::VertexState { module: vertex_shader, entry_point: "vs_main", buffers: &[] },
        fragment: Some(wgpu::FragmentState { module: fragment_shader, entry_point: "fs_main", targets: &[Some(format.into())] }),
        primitive: wgpu::PrimitiveState::default(),
        depth_stencil: None,
        multisample: wgpu::MultisampleState::default(),
        multiview: None,
    });
    match take_scope_error(device).or(take_scope_error(device)) { None => Ok(pipeline), Some(e) => Err(e) }
}

/// Relies on `Arc::as_ref` to borrow the device behind the shared pointer.
#[verifier::external_body]
fn device_ref(device: &Arc<wgpu::Device>) -> &wgpu::Device {
    Arc::as_ref(device)
}

impl ShaderDesc {
    /// Compiles this descriptor's shader from the given source text (the
    /// caller resolved the source identifier to text beforehand); a failure
    /// the device reports is surfaced as a creation error.
    pub fn create_shader_module(&self, device: &wgpu::Device, source_text: &str) -> (r: Result<
        wgpu::ShaderModule,
        ResourceError,
    >)
        ensures
            r matches Err(e) ==> e is ResourceCreation,
    {
        match compile_shader_module(device, self.label.as_str(), source_text) {
            Ok(module) => Ok(module),
            Err(e) => Err(ResourceError::ResourceCreation { message: error_text(&e) }),
        }
    }
}

impl PipelineLayoutDesc {
    /// Constructs this descriptor's pipeline layout on the device; a failure
    /// the device reports is surfaced as a creation error, never a panic.
    pub fn create_pipeline_layout(&self, device: &wgpu::Device) -> (r: Result<
        wgpu::PipelineLayout,
        ResourceError,
    >)
        ensures
            r matches Err(e) ==> e is ResourceCreation,
    {
        match build_pipeline_layout(device, self.label.as_str()) {
            Ok(layout) => Ok(layout),
            Err(e) => Err(ResourceError::ResourceCreation { message: error_text(&e) }),
        }
    }
}

/// The pool registry instantiated at the wgpu object types.
pub type GpuResourcePools = RenderResourcePools<
    wgpu::ShaderModule,
    wgpu::PipelineLayout,
    wgpu::RenderPipeline,
>;

/// Everything rendering components need: the injected device and queue, and
/// the pool registry that caches what the device constructs.
pub struct RenderContext {
    pub device: Arc<wgpu::Device>,
    pub queue: Arc<wgpu::Queue>,
    pub resources: GpuResourcePools,
}

impl RenderContext {
    /// A context that stores the injected device and queue as given, with
    /// empty pools.
    pub fn new(_adapter: &wgpu::Adapter, device: Arc<wgpu::Device>, queue: Arc<wgpu::Queue>) -> (r:
        Self)
        ensures
            r.device == device,
            r.queue == queue,
            r.resources.wf(),
            r.resources.shaders@.len() == 0,
            r.resources.pipeline_layouts@.len() == 0,
            r.resources.render_pipelines@.len() == 0,
    {
        RenderContext { device, queue, resources: RenderResourcePools::default() }
    }
}

/// Builds a [`TriangleRenderer`] against the context's device: the resolve
/// phase compiles the shared triangle shader (from `shader_source`, already
/// read by the caller) and the layout at most once each, and the compose
/// phase constructs the pipeline at most once per target format. When the
/// three triangle resources are already cached, no device call runs and the
/// build succeeds.
///
/// `format_code` is the identity under which the format is cached; the
/// caller keeps one code per distinct `swapchain_format`.
pub fn create_triangle_renderer(
    ctx: &mut RenderContext,
    swapchain_format: wgpu::TextureFormat,
    format_code: u32,
    shader_source: &str,
) -> (r: Result<TriangleRenderer, ResourceError>)
    requires
        old(ctx).resources.wf(),
    ensures
        final(ctx).resources.wf(),
        final(ctx).device == old(ctx).device,
        final(ctx).queue == old(ctx).queue,
        old(ctx).resources.shaders@.len() <= final(ctx).resources.shaders@.len() <= old(
            ctx,
        ).resources.shaders@.len() + 1,
        old(ctx).resources.pipeline_layouts@.len() <= final(ctx).resources.pipeline_layouts@.len()
            <= old(ctx).resources.pipeline_layouts@.len() + 1,
        old(ctx).resources.render_pipelines@.len() <= final(ctx).resources.render_pipelines@.len()
            <= old(ctx).resources.render_pipelines@.len() + 1,
        r matches Ok(tr) ==> final(ctx).resources.render_pipelines.handle_valid(tr.pipeline_spec()),
        // every failure is one the device reported, surfaced as a creation
        // error
        r matches Err(e) ==> e is ResourceCreation,
        // a warm cache obliges success: every request hits and no device
        // call runs
        triangle_resources_cached(
            old(ctx).resources,
            TargetFormat { code: format_code },
        ) ==> r matches Ok(_),
{
    let device = device_ref(&ctx.device);
    TriangleRenderer::new(
        &mut ctx.resources,
        TargetFormat { code: format_code },
        (|d: &PipelineLayoutDesc| -> (out: Result<wgpu::PipelineLayout, ResourceError>)
            ensures
                out matches Err(e) ==> e is ResourceCreation,
            {
                d.create_pipeline_layout(device)
            }),
        (|d: &ShaderDesc| -> (out: Result<wgpu::ShaderModule, ResourceError>)
            ensures
                out matches Err(e) ==> e is ResourceCreation,
            {
                d.create_shader_module(device, shader_source)
            }),
        (|d: &ShaderDesc| -> (out: Result<wgpu::ShaderModule, ResourceError>)
            ensures
                out matches Err(e) ==> e is ResourceCreation,
            {
                d.create_shader_module(device, shader_source)
            }),
        (|d: &RenderPipelineDesc, vs: &wgpu::ShaderModule, fs: &wgpu::ShaderModule, lay:
            &wgpu::PipelineLayout| -> (out: Result<wgpu::RenderPipeline, ResourceError>)
            ensures
                out matches Err(e) ==> e is ResourceCreation,
            {
                match build_render_pipeline(device, d.label.as_str(), vs, fs, lay, swapchain_format) {
                    Ok(p) => Ok(p),
                    Err(e) => Err(ResourceError::ResourceCreation { message: error_text(&e) }),
                }
            }),
    )
}

} // verus!
