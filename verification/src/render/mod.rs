//! The render path's logic: memory-type and queue-family selection, SPIR-V
//! words, buffer sizes, and the cache of compiled pipelines.

pub mod device;
pub mod memory;
pub mod pipeline;
pub mod pipeline_cache;
pub mod pipelines;
pub mod render_target;

pub use pipeline_cache::{PipelineCache, PipelineId};
pub use pipelines::Pipeline;
