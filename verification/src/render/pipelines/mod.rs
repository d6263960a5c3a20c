//! The [`Pipeline`] trait that lets [`PipelineCache`](crate::render::PipelineCache)
//! store compiled pipelines generically, and the point pipeline's buffer logic.

pub mod point;

use vstd::prelude::*;
use ash::vk::Pipeline as VkPipeline;
use ash::vk::PipelineLayout as VkPipelineLayout;

verus! {

/// A Vulkan pipeline handle.
#[verifier::external_type_specification]
#[verifier::external_body]
pub struct ExVkPipeline(VkPipeline);

/// A Vulkan pipeline layout handle.
#[verifier::external_type_specification]
#[verifier::external_body]
pub struct ExVkPipelineLayout(VkPipelineLayout);

/// Object-safe interface for a compiled graphics pipeline.
pub trait Pipeline: Send + Sync {
    /// The raw `VkPipeline` handle, suitable for `cmd_bind_pipeline`.
    fn raw(&self) -> VkPipeline;

    /// The `VkPipelineLayout` paired with this pipeline.
    fn layout(&self) -> VkPipelineLayout;
}

} // verus!
