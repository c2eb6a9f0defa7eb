use vstd::prelude::*;
use wgpu::Features;

verus! {

/// How the renderer drives its work: mostly on the GPU or mostly on the CPU.
#[derive(Clone, Copy, Debug, PartialEq, Eq, Structural)]
pub enum RendererProfile {
    /// Culling and draw submission on the CPU; the modest profile.
    CpuDriven,
    /// Culling and draw submission on the GPU; needs more of the device.
    GpuDriven,
}

/// The device limit that a check found too low (or, for an alignment, too high).
#[derive(Clone, Copy, Debug, PartialEq, Eq, Structural)]
pub enum LimitType {
    MaxTextureDimension1d,
    MaxTextureDimension2d,
    MaxTextureDimension3d,
    MaxTextureArrayLayers,
    BindGroups,
    MaxBindingsPerBindGroup,
    DynamicUniformBuffersPerPipelineLayout,
    DynamicStorageBuffersPerPipelineLayout,
    SampledTexturesPerShaderStages,
    SamplersPerShaderStages,
    StorageBuffersPerShaderStages,
    StorageTexturesPerShaderStages,
    UniformBufferBindingSize,
    MaxStorageBufferBindingSize,
    MaxVertexBuffers,
    MaxVertexAttributes,
    MaxVertexBufferArrayStride,
    PushConstantSize,
    StorageBufferBindingAlignment,
    UniformBufferBindingAlignment,
    MaxInterStageShaderComponents,
    MaxComputeWorkgroupStorageSize,
    MaxComputeInvocationsPerWorkgroup,
    MaxComputeWorkgroupSizeX,
    MaxComputeWorkgroupSizeY,
    MaxComputeWorkgroupSizeZ,
    MaxComputeWorkgroupsPerDimension,
    MaxBufferSize,
    MaxColorAttachmentBytesPerSample,
    MaxColorAttachments,
    MaxSubgroupSize,
    MinSubgroupSize,
    MaxAccelerationStructureSize,
    MeshShaderLimits,
    MaxBindingArrayElements,
}

/// Why a renderer could not be set up on a device.
#[derive(Debug, PartialEq)]
pub enum RendererInitializationError {
    /// No adapter was found that is usable with the requested settings.
    MissingAdapter,
    /// The chosen adapter refused to create a device.
    RequestDeviceFailed,
    /// The device lacks features the profile requires; `features` are the missing ones.
    MissingDeviceFeatures { features: Features },
    /// One device limit is not good enough for the profile.
    LowDeviceLimit { ty: LimitType, device_limit: u64, required_limit: u64 },
}

} // verus!
