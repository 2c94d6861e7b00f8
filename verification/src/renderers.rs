//! Rendering components built on the pool registry.
//!
//! A renderer resolves and composes all the pipelines it needs once, when it
//! is built; drawing afterwards only ever reads resources by handle and must
//! never trigger creation.

pub mod triangle;

pub use triangle::TriangleRenderer;
