//! Frame composition pipeline for a deferred renderer.
//!
//! The library decides what a frame renders: it accumulates draw bundles in
//! three ordered lists (geometry, lights, filters) and, on finalize, lays out
//! the three render passes — geometry into the G-buffer, lights into the HDR
//! accumulation target, filters onto the surface — with their clear/store
//! policy and replay order. The surrounding application executes that plan
//! against the GPU and performs surface acquisition and presentation.

pub mod bundle;
pub mod display;
pub mod error;
pub mod frame;
pub mod tex;
