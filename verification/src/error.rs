//! Errors of the renderer, and the graphics types that the library carries without looking
//! inside them.

use std::sync::Arc;
use vstd::prelude::*;
use vulkano::pipeline::PipelineLayout;
use vulkano::shader::ShaderModule;

verus! {

/// A pipeline layout of the graphics driver.
#[verifier::external_type_specification]
#[verifier::external_body]
pub struct ExPipelineLayout(PipelineLayout);

/// A shader module loaded into the graphics driver.
#[verifier::external_type_specification]
#[verifier::external_body]
pub struct ExShaderModule(ShaderModule);

/// Another handle to the same shared value (`Arc::clone`).
#[verifier::external_body]
pub(crate) fn arc_clone<T>(a: &Arc<T>) -> (r: Arc<T>)
    ensures
        r == *a,
{
    a.clone()
}

/// Errors of the renderer.
#[derive(Debug)]
pub enum LibError {
    NoPhysicalDevice,
    NoGraphicsQueue,
    FailToGetDescriptorSetLayout(Arc<PipelineLayout>),
    FailToMakeImageBuffer,
    FailToGetSubBuffer,
    NoSuitablePhysicalDevice,
    NoSurfaceCompositeAlpha,
    NoSuitableSwapchainImageFormat,
    InvalidFileSizeForSpirvBytecode(usize),
    NoCommandBufferAtIndex(usize),
    CouldNotFindShader(String),
    MissingDescriptorSet(usize),
    NoFileExtensionOnShader,
}

} // verus!
