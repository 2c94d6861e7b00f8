use pg_renderer::error::ResourceError;
use pg_renderer::renderers::TriangleRenderer;
use pg_renderer::resources::pipeline_layout::PipelineLayoutDesc;
use pg_renderer::resources::render_pipeline::{RenderPipelineDesc, TargetFormat};
use pg_renderer::resources::shader::ShaderDesc;
use pg_renderer::resources::RenderResourcePools;

type Pools = RenderResourcePools<String, String, String>;

const BGRA8: TargetFormat = TargetFormat { code: 87 };

#[test]
fn shader_dedup_then_composite_dedup() {
    let mut pools = Pools::default();
    let mut compiles = 0;

    // first call creates and returns a handle; the second call with an
    // identical descriptor returns it again without recompiling
    let tri = ShaderDesc::new("tri".to_string(), "triangle.wgsl".to_string());
    let h1 = pools
        .shaders
        .get_or_create(&tri, |d: &ShaderDesc| {
            compiles += 1;
            Ok(format!("module({})", d.source))
        })
        .unwrap();
    let again = pools
        .shaders
        .get_or_create(&tri, |_: &ShaderDesc| {
            compiles += 1;
            Ok("unused".to_string())
        })
        .unwrap();
    assert_eq!(h1, again);
    assert_eq!(compiles, 1);

    let l1 = pools
        .pipeline_layouts
        .get_or_create(&PipelineLayoutDesc { label: "p1_layout".to_string() }, |d| {
            Ok(format!("layout({})", d.label))
        })
        .unwrap();

    // composing the pipeline from the resolved handles succeeds, and
    // re-requesting the same composite descriptor returns the same handle
    // without invoking the backend construction a second time
    let mut builds = 0;
    let pdesc = RenderPipelineDesc {
        label: "p1".to_string(),
        vertex_shader: h1,
        fragment_shader: h1,
        pipeline_layout: l1,
        target_format: BGRA8,
    };
    let p1 = pools
        .render_pipelines
        .get_or_create(
            &pdesc,
            &pools.shaders,
            &pools.pipeline_layouts,
            |d: &RenderPipelineDesc, vs: &String, fs: &String, lay: &String| {
                builds += 1;
                Ok(format!("pipeline({},{},{},{})", d.label, vs, fs, lay))
            },
        )
        .unwrap();
    let p1_again = pools
        .render_pipelines
        .get_or_create(
            &pdesc,
            &pools.shaders,
            &pools.pipeline_layouts,
            |_: &RenderPipelineDesc, _: &String, _: &String, _: &String| {
                builds += 1;
                Ok("unused".to_string())
            },
        )
        .unwrap();
    assert_eq!(p1, p1_again);
    assert_eq!(builds, 1);
    assert_eq!(pools.render_pipelines.len(), 1);
    assert_eq!(
        pools.render_pipelines.get_resource(p1),
        &"pipeline(p1,module(triangle.wgsl),module(triangle.wgsl),layout(p1_layout))".to_string()
    );
}

#[test]
fn label_is_part_of_shader_identity() {
    let mut pools = Pools::default();
    let mut compiles = 0;
    let da = ShaderDesc::new("a".to_string(), "x.wgsl".to_string());
    let db = ShaderDesc::new("b".to_string(), "x.wgsl".to_string());
    let ha = pools
        .shaders
        .get_or_create(&da, |d: &ShaderDesc| {
            compiles += 1;
            Ok(format!("module({},{})", d.label, d.source))
        })
        .unwrap();
    let hb = pools
        .shaders
        .get_or_create(&db, |d: &ShaderDesc| {
            compiles += 1;
            Ok(format!("module({},{})", d.label, d.source))
        })
        .unwrap();
    assert_ne!(ha, hb);
    assert_eq!(compiles, 2);
    assert_eq!(pools.shaders.len(), 2);
    assert_eq!(pools.shaders.get_resource(ha), &"module(a,x.wgsl)".to_string());
    assert_eq!(pools.shaders.get_resource(hb), &"module(b,x.wgsl)".to_string());
}

#[test]
fn two_pipelines_share_one_shader() {
    let mut pools = Pools::default();
    let mut compiles = 0;

    // resolve phase, run by two independent consumers of one shader
    let shared = ShaderDesc::new("tri".to_string(), "triangle.wgsl".to_string());
    let h_first = pools
        .shaders
        .get_or_create(&shared, |_: &ShaderDesc| {
            compiles += 1;
            Ok("module".to_string())
        })
        .unwrap();
    let h_second = pools
        .shaders
        .get_or_create(&shared, |_: &ShaderDesc| {
            compiles += 1;
            Ok("module".to_string())
        })
        .unwrap();
    assert_eq!(h_first, h_second);

    let layout = pools
        .pipeline_layouts
        .get_or_create(&PipelineLayoutDesc { label: "shared_layout".to_string() }, |_| {
            Ok("layout".to_string())
        })
        .unwrap();

    // compose phase: two distinct composite descriptors, one shared shader
    let mut handles = Vec::new();
    for label in ["p1", "p2"] {
        let pdesc = RenderPipelineDesc {
            label: label.to_string(),
            vertex_shader: h_first,
            fragment_shader: h_second,
            pipeline_layout: layout,
            target_format: BGRA8,
        };
        let h = pools
            .render_pipelines
            .get_or_create(
                &pdesc,
                &pools.shaders,
                &pools.pipeline_layouts,
                |d: &RenderPipelineDesc, _: &String, _: &String, _: &String| {
                    Ok(format!("pipeline({})", d.label))
                },
            )
            .unwrap();
        handles.push(h);
    }
    assert_ne!(handles[0], handles[1]);
    assert_eq!(pools.render_pipelines.len(), 2);
    // the shader was created exactly once for both pipelines
    assert_eq!(compiles, 1);
    assert_eq!(pools.shaders.len(), 1);
}

#[test]
fn triangle_renderer_builds_and_dedups() {
    let mut pools = Pools::default();
    let compiles = std::cell::Cell::new(0);
    let renderer = TriangleRenderer::new(
        &mut pools,
        BGRA8,
        |d: &PipelineLayoutDesc| Ok(format!("layout({})", d.label)),
        |d: &ShaderDesc| {
            compiles.set(compiles.get() + 1);
            Ok(format!("module({})", d.source))
        },
        |d: &ShaderDesc| {
            compiles.set(compiles.get() + 1);
            Ok(format!("module({})", d.source))
        },
        |d: &RenderPipelineDesc, _: &String, _: &String, _: &String| {
            Ok(format!("pipeline({})", d.label))
        },
    )
    .unwrap();

    // the vertex and the fragment stage share one shader module
    assert_eq!(compiles.get(), 1);
    assert_eq!(pools.shaders.len(), 1);
    assert_eq!(pools.pipeline_layouts.len(), 1);
    assert_eq!(pools.render_pipelines.len(), 1);

    // drawing only dereferences the handle; nothing is created
    let h = renderer.pipeline_handle();
    assert!(pools.render_pipelines.contains_handle(h));
    assert_eq!(pools.render_pipelines.get_resource(h), &"pipeline(Wowza)".to_string());

    // a second renderer reuses every cached resource
    let renderer2 = TriangleRenderer::new(
        &mut pools,
        BGRA8,
        |_: &PipelineLayoutDesc| Ok("unused".to_string()),
        |_: &ShaderDesc| {
            compiles.set(compiles.get() + 1);
            Ok("unused".to_string())
        },
        |_: &ShaderDesc| {
            compiles.set(compiles.get() + 1);
            Ok("unused".to_string())
        },
        |_: &RenderPipelineDesc, _: &String, _: &String, _: &String| Ok("unused".to_string()),
    )
    .unwrap();
    assert_eq!(compiles.get(), 1);
    assert_eq!(pools.shaders.len(), 1);
    assert_eq!(pools.render_pipelines.len(), 1);
    assert_eq!(renderer2.pipeline_handle(), h);
}

#[test]
fn triangle_renderer_reports_creation_failure() {
    let mut pools = Pools::default();
    let r = TriangleRenderer::new(
        &mut pools,
        BGRA8,
        |d: &PipelineLayoutDesc| Ok(format!("layout({})", d.label)),
        |d: &ShaderDesc| {
            Err::<String, _>(ResourceError::AssetNotFound { identifier: d.source.clone() })
        },
        |d: &ShaderDesc| {
            Err::<String, _>(ResourceError::AssetNotFound { identifier: d.source.clone() })
        },
        |_: &RenderPipelineDesc, _: &String, _: &String, _: &String| Ok("unused".to_string()),
    );
    assert_eq!(
        r.unwrap_err(),
        ResourceError::AssetNotFound { identifier: "shaders/triangle.wgsl".to_string() }
    );
    // the failed shader left no entry behind; the layout step had already
    // succeeded and stays cached
    assert_eq!(pools.shaders.len(), 0);
    assert_eq!(pools.pipeline_layouts.len(), 1);
    assert_eq!(pools.render_pipelines.len(), 0);
}
