//! A descriptor-keyed cache for expensive, immutable render-backend objects.
//!
//! The heart of the crate is [`pool::StaticResourcePool`]: an append-only
//! arena of resources paired with a descriptor-to-handle lookup, which
//! memoizes resource creation so that equal descriptors always resolve to the
//! same handle. Leaf pools for shader modules and pipeline layouts, and a
//! composite pool for render pipelines whose descriptors embed handles issued
//! by the leaf pools, are built on it.

pub mod error;
pub mod gpu;
pub mod pool;
pub mod renderers;
pub mod resources;
