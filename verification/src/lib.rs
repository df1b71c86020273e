//! Batch image transformation library: aspect-ratio center crop, bounded
//! downscale, extension-driven codec dispatch, and a batch scheduler with
//! monotonic progress accounting.

pub mod batch;
pub mod codec;
pub mod error;
pub mod geometry;
pub mod imgops;
pub mod naming;
pub mod pipeline;
pub mod progress;
pub mod ratio;
pub mod text;
