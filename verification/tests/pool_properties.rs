use pg_renderer::error::ResourceError;
use pg_renderer::pool::{PoolKey, StaticResourcePool};
use pg_renderer::resources::shader::{ShaderDesc, ShaderHandle};
use pg_renderer::resources::RenderResourcePools;

type TestPool = StaticResourcePool<ShaderHandle, ShaderDesc, String>;

fn desc(label: &str, source: &str) -> ShaderDesc {
    ShaderDesc::new(label.to_string(), source.to_string())
}

#[test]
fn dedup_idempotence_creates_once() {
    let mut pool = TestPool::new();
    let d = desc("tri", "triangle.wgsl");
    let mut calls = 0;
    let h1 = pool
        .get_or_create(&d, |d: &ShaderDesc| {
            calls += 1;
            Ok(format!("compiled:{}", d.source))
        })
        .unwrap();
    let h2 = pool
        .get_or_create(&d, |_d: &ShaderDesc| {
            calls += 1;
            Ok("recompiled".to_string())
        })
        .unwrap();
    assert_eq!(h1, h2);
    assert_eq!(calls, 1);
    assert_eq!(pool.len(), 1);
    assert_eq!(pool.get_resource(h1), &"compiled:triangle.wgsl".to_string());
}

#[test]
fn key_discrimination_label_field() {
    let mut pool = TestPool::new();
    let d1 = desc("a", "x.wgsl");
    let d2 = desc("b", "x.wgsl");
    let h1 = pool
        .get_or_create(&d1, |d: &ShaderDesc| Ok(format!("{}#{}", d.label, d.source)))
        .unwrap();
    let h2 = pool
        .get_or_create(&d2, |d: &ShaderDesc| Ok(format!("{}#{}", d.label, d.source)))
        .unwrap();
    assert_ne!(h1, h2);
    assert_eq!(pool.len(), 2);
    assert_eq!(pool.get_resource(h1), &"a#x.wgsl".to_string());
    assert_eq!(pool.get_resource(h2), &"b#x.wgsl".to_string());
}

#[test]
fn key_discrimination_source_field() {
    let mut pool = TestPool::new();
    let d1 = desc("same", "one.wgsl");
    let d2 = desc("same", "two.wgsl");
    let h1 = pool.get_or_create(&d1, |_: &ShaderDesc| Ok("r1".to_string())).unwrap();
    let h2 = pool.get_or_create(&d2, |_: &ShaderDesc| Ok("r2".to_string())).unwrap();
    assert_ne!(h1, h2);
    assert_eq!(pool.len(), 2);
}

#[test]
fn append_only_growth_across_calls() {
    let mut pool = TestPool::new();
    let mut last_len = pool.len();
    let requests = [
        ("a", "x.wgsl", true),
        ("a", "x.wgsl", true),
        ("b", "x.wgsl", false),
        ("b", "x.wgsl", true),
        ("c", "y.wgsl", true),
    ];
    for (label, source, succeed) in requests {
        let d = desc(label, source);
        let _ = pool.get_or_create(&d, |_: &ShaderDesc| {
            if succeed {
                Ok("res".to_string())
            } else {
                Err(ResourceError::ResourceCreation { message: "backend refused".to_string() })
            }
        });
        assert!(pool.len() >= last_len);
        last_len = pool.len();
    }
    assert_eq!(pool.len(), 3);
}

#[test]
fn failure_non_poisoning_retries_creation() {
    let mut pool = TestPool::new();
    let d = desc("tri", "missing.wgsl");
    let mut calls = 0;
    let r1 = pool.get_or_create(&d, |d: &ShaderDesc| {
        calls += 1;
        Err::<String, _>(ResourceError::AssetNotFound { identifier: d.source.clone() })
    });
    assert_eq!(
        r1,
        Err(ResourceError::AssetNotFound { identifier: "missing.wgsl".to_string() })
    );
    assert_eq!(pool.len(), 0);
    assert!(pool.find(&d).is_none());

    // an immediate retry runs creation again, from scratch
    let r2 = pool.get_or_create(&d, |_: &ShaderDesc| {
        calls += 1;
        Ok("now present".to_string())
    });
    assert_eq!(calls, 2);
    let h = r2.unwrap();
    assert_eq!(pool.len(), 1);
    assert_eq!(pool.get_resource(h), &"now present".to_string());
}

#[test]
fn creation_error_variants_propagate() {
    let mut pool = TestPool::new();
    let r = pool.get_or_create(&desc("s", "bad.wgsl"), |_: &ShaderDesc| {
        Err::<String, _>(ResourceError::ResourceCreation { message: "bad shader code".to_string() })
    });
    assert!(matches!(r, Err(ResourceError::ResourceCreation { .. })));
    let r = pool.get_or_create(&desc("s", "gone.wgsl"), |d: &ShaderDesc| {
        Err::<String, _>(ResourceError::AssetNotFound { identifier: d.source.clone() })
    });
    assert!(matches!(r, Err(ResourceError::AssetNotFound { .. })));
}

#[test]
fn foreign_handle_is_rejected_by_contains() {
    let mut pool = TestPool::new();
    let h = pool
        .get_or_create(&desc("a", "x.wgsl"), |_: &ShaderDesc| Ok("r".to_string()))
        .unwrap();
    assert!(pool.contains_handle(h));
    // a handle this pool never issued does not pass the validity check
    let foreign = ShaderHandle::from_index(7);
    assert!(!pool.contains_handle(foreign));
}

#[test]
fn registry_starts_empty_and_well_formed() {
    let pools: RenderResourcePools<String, String, String> = RenderResourcePools::default();
    assert_eq!(pools.shaders.len(), 0);
    assert_eq!(pools.pipeline_layouts.len(), 0);
    assert_eq!(pools.render_pipelines.len(), 0);
}
