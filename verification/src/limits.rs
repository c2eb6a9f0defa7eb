//! GPU device limits: what each profile requires, and the check of a
//! device's limits against a profile.
use vstd::prelude::*;

use crate::error::{LimitType, RendererInitializationError, RendererProfile};

verus! {

/// Largest uniform buffer binding needed to run the renderer.
pub const MAX_UNIFORM_BUFFER_BINDING_SIZE: u64 = 1024;

/// Number of 2D texture slots the renderer starts with; the GPU-driven
/// profile samples that many textures per shader stage.
pub const STARTING_2D_TEXTURES: usize = 256;

/// The limits of a GPU device, field for field those of `wgpu::Limits`.
#[derive(Clone, Copy, Debug, PartialEq, Eq, Structural)]
pub struct Limits {
    pub max_texture_dimension_1d: u32,
    pub max_texture_dimension_2d: u32,
    pub max_texture_dimension_3d: u32,
    pub max_texture_array_layers: u32,
    pub max_bind_groups: u32,
    pub max_bindings_per_bind_group: u32,
    pub max_dynamic_uniform_buffers_per_pipeline_layout: u32,
    pub max_dynamic_storage_buffers_per_pipeline_layout: u32,
    pub max_sampled_textures_per_shader_stage: u32,
    pub max_samplers_per_shader_stage: u32,
    pub max_storage_buffers_per_shader_stage: u32,
    pub max_storage_textures_per_shader_stage: u32,
    pub max_uniform_buffers_per_shader_stage: u32,
    pub max_binding_array_elements_per_shader_stage: u32,
    pub max_binding_array_sampler_elements_per_shader_stage: u32,
    pub max_uniform_buffer_binding_size: u32,
    pub max_storage_buffer_binding_size: u32,
    pub max_vertex_buffers: u32,
    pub max_buffer_size: u64,
    pub max_vertex_attributes: u32,
    pub max_vertex_buffer_array_stride: u32,
    pub min_uniform_buffer_offset_alignment: u32,
    pub min_storage_buffer_offset_alignment: u32,
    pub max_inter_stage_shader_components: u32,
    pub max_color_attachments: u32,
    pub max_color_attachment_bytes_per_sample: u32,
    pub max_compute_workgroup_storage_size: u32,
    pub max_compute_invocations_per_workgroup: u32,
    pub max_compute_workgroup_size_x: u32,
    pub max_compute_workgroup_size_y: u32,
    pub max_compute_workgroup_size_z: u32,
    pub max_compute_workgroups_per_dimension: u32,
    pub min_subgroup_size: u32,
    pub max_subgroup_size: u32,
    pub max_push_constant_size: u32,
    pub max_non_sampler_bindings: u32,
    pub max_task_workgroup_total_count: u32,
    pub max_task_workgroups_per_dimension: u32,
    pub max_mesh_output_layers: u32,
    pub max_mesh_multiview_count: u32,
    pub max_blas_primitive_count: u32,
    pub max_blas_geometry_count: u32,
    pub max_tlas_instance_count: u32,
    pub max_acceleration_structures_per_shader_stage: u32,
}

/// One comparison of a device limit with a required value. Most limits
/// are "higher is better" and must be at least the required value; an
/// alignment is "lower is better" and must be at most the required value
/// (`at_most`).
#[derive(Clone, Copy, Debug, PartialEq, Eq, Structural)]
pub struct LimitCheck {
    pub ty: LimitType,
    pub device_limit: u64,
    pub required_limit: u64,
    pub at_most: bool,
}

/// A check that the device limit is at least the required one.
pub open spec fn at_least(ty: LimitType, device_limit: u64, required_limit: u64) -> LimitCheck {
    LimitCheck { ty, device_limit, required_limit, at_most: false }
}

/// A check that the device limit is at most the required one.
pub open spec fn at_most(ty: LimitType, device_limit: u64, required_limit: u64) -> LimitCheck {
    LimitCheck { ty, device_limit, required_limit, at_most: true }
}

/// Whether the device limit of a check is good enough.
pub open spec fn check_passes(c: LimitCheck) -> bool {
    if c.at_most {
        c.device_limit <= c.required_limit
    } else {
        c.required_limit <= c.device_limit
    }
}

/// The error reported for a failed check.
pub open spec fn limit_error(c: LimitCheck) -> RendererInitializationError {
    RendererInitializationError::LowDeviceLimit {
        ty: c.ty,
        device_limit: c.device_limit,
        required_limit: c.required_limit,
    }
}

/// The comparisons made between a device's limits and the required ones, in
/// the order in which they are made. `max_non_sampler_bindings` is not
/// compared.
pub open spec fn limit_checks(required: Limits, device: Limits) -> Seq<LimitCheck> {
    seq![
        at_least(LimitType::MaxTextureDimension1d, device.max_texture_dimension_1d as u64, required.max_texture_dimension_1d as u64),
        at_least(LimitType::MaxTextureDimension2d, device.max_texture_dimension_2d as u64, required.max_texture_dimension_2d as u64),
        at_least(LimitType::MaxTextureDimension3d, device.max_texture_dimension_3d as u64, required.max_texture_dimension_3d as u64),
        at_least(LimitType::MaxTextureArrayLayers, device.max_texture_array_layers as u64, required.max_texture_array_layers as u64),
        at_least(LimitType::BindGroups, device.max_bind_groups as u64, required.max_bind_groups as u64),
        at_least(LimitType::MaxBindingsPerBindGroup, device.max_bindings_per_bind_group as u64, required.max_bindings_per_bind_group as u64),
        at_least(LimitType::DynamicUniformBuffersPerPipelineLayout, device.max_dynamic_uniform_buffers_per_pipeline_layout as u64, required.max_dynamic_uniform_buffers_per_pipeline_layout as u64),
        at_least(LimitType::DynamicStorageBuffersPerPipelineLayout, device.max_dynamic_storage_buffers_per_pipeline_layout as u64, required.max_dynamic_storage_buffers_per_pipeline_layout as u64),
        at_least(LimitType::SampledTexturesPerShaderStages, device.max_sampled_textures_per_shader_stage as u64, required.max_sampled_textures_per_shader_stage as u64),
        at_least(LimitType::SamplersPerShaderStages, device.max_samplers_per_shader_stage as u64, required.max_samplers_per_shader_stage as u64),
        at_least(LimitType::StorageBuffersPerShaderStages, device.max_storage_buffers_per_shader_stage as u64, required.max_storage_buffers_per_shader_stage as u64),
        at_least(LimitType::StorageTexturesPerShaderStages, device.max_storage_textures_per_shader_stage as u64, required.max_storage_textures_per_shader_stage as u64),
        at_least(LimitType::StorageTexturesPerShaderStages, device.max_uniform_buffers_per_shader_stage as u64, required.max_uniform_buffers_per_shader_stage as u64),
        at_least(LimitType::UniformBufferBindingSize, device.max_uniform_buffer_binding_size as u64, required.max_uniform_buffer_binding_size as u64),
        at_least(LimitType::MaxStorageBufferBindingSize, device.max_storage_buffer_binding_size as u64, required.max_storage_buffer_binding_size as u64),
        at_least(LimitType::MaxVertexBuffers, device.max_vertex_buffers as u64, required.max_vertex_buffers as u64),
        at_least(LimitType::MaxVertexAttributes, device.max_vertex_attributes as u64, required.max_vertex_attributes as u64),
        at_least(LimitType::MaxVertexBufferArrayStride, device.max_vertex_buffer_array_stride as u64, required.max_vertex_buffer_array_stride as u64),
        at_least(LimitType::PushConstantSize, device.max_push_constant_size as u64, required.max_push_constant_size as u64),
        at_most(LimitType::StorageBufferBindingAlignment, device.min_storage_buffer_offset_alignment as u64, required.min_storage_buffer_offset_alignment as u64),
        at_most(LimitType::UniformBufferBindingAlignment, device.min_uniform_buffer_offset_alignment as u64, required.min_uniform_buffer_offset_alignment as u64),
        at_least(LimitType::MaxInterStageShaderComponents, device.max_inter_stage_shader_components as u64, required.max_inter_stage_shader_components as u64),
        at_least(LimitType::MaxComputeWorkgroupStorageSize, device.max_compute_workgroup_storage_size as u64, required.max_compute_workgroup_storage_size as u64),
        at_least(LimitType::MaxComputeInvocationsPerWorkgroup, device.max_compute_invocations_per_workgroup as u64, required.max_compute_invocations_per_workgroup as u64),
        at_least(LimitType::MaxComputeWorkgroupSizeX, device.max_compute_workgroup_size_x as u64, required.max_compute_workgroup_size_x as u64),
        at_least(LimitType::MaxComputeWorkgroupSizeY, device.max_compute_workgroup_size_y as u64, required.max_compute_workgroup_size_y as u64),
        at_least(LimitType::MaxComputeWorkgroupSizeZ, device.max_compute_workgroup_size_z as u64, required.max_compute_workgroup_size_z as u64),
        at_least(LimitType::MaxComputeWorkgroupsPerDimension, device.max_compute_workgroups_per_dimension as u64, required.max_compute_workgroups_per_dimension as u64),
        at_least(LimitType::MaxBufferSize, device.max_buffer_size as u64, required.max_buffer_size as u64),
        at_least(LimitType::MaxColorAttachmentBytesPerSample, device.max_color_attachment_bytes_per_sample as u64, required.max_color_attachment_bytes_per_sample as u64),
        at_least(LimitType::MaxColorAttachments, device.max_color_attachments as u64, required.max_color_attachments as u64),
        at_least(LimitType::MaxSubgroupSize, device.max_subgroup_size as u64, required.max_subgroup_size as u64),
        at_least(LimitType::MinSubgroupSize, device.min_subgroup_size as u64, required.min_subgroup_size as u64),
        at_least(LimitType::MaxAccelerationStructureSize, device.max_acceleration_structures_per_shader_stage as u64, required.max_acceleration_structures_per_shader_stage as u64),
        at_least(LimitType::MaxAccelerationStructureSize, device.max_blas_geometry_count as u64, required.max_blas_geometry_count as u64),
        at_least(LimitType::MaxAccelerationStructureSize, device.max_blas_primitive_count as u64, required.max_blas_primitive_count as u64),
        at_least(LimitType::MaxAccelerationStructureSize, device.max_tlas_instance_count as u64, required.max_tlas_instance_count as u64),
        at_least(LimitType::MeshShaderLimits, device.max_mesh_output_layers as u64, required.max_mesh_output_layers as u64),
        at_least(LimitType::MeshShaderLimits, device.max_mesh_multiview_count as u64, required.max_mesh_multiview_count as u64),
        at_least(LimitType::MeshShaderLimits, device.max_task_workgroups_per_dimension as u64, required.max_task_workgroups_per_dimension as u64),
        at_least(LimitType::MeshShaderLimits, device.max_task_workgroup_total_count as u64, required.max_task_workgroup_total_count as u64),
        at_least(LimitType::MaxBindingArrayElements, device.max_binding_array_sampler_elements_per_shader_stage as u64, required.max_binding_array_sampler_elements_per_shader_stage as u64),
        at_least(LimitType::MaxBindingArrayElements, device.max_binding_array_elements_per_shader_stage as u64, required.max_binding_array_elements_per_shader_stage as u64),
    ]
}

/// Whether every check of the sequence passes.
pub open spec fn all_pass(checks: Seq<LimitCheck>) -> bool {
    forall|i: int| 0 <= i < checks.len() ==> #[trigger] check_passes(checks[i])
}

/// Whether check `i` is the first one of the sequence that fails.
pub open spec fn is_first_failure(checks: Seq<LimitCheck>, i: int) -> bool {
    &&& 0 <= i < checks.len()
    &&& !check_passes(checks[i])
    &&& forall|j: int| 0 <= j < i ==> #[trigger] check_passes(checks[j])
}

/// The limits a device is used with once it passes: its own, with the
/// non-sampler bindings fixed at one million.
pub open spec fn granted_limits(device: Limits) -> Limits {
    Limits { max_non_sampler_bindings: 1_000_000, ..device }
}

/// Limits required to run in the GPU-driven profile.
pub open spec fn gpu_required_limits_spec() -> Limits {
    Limits {
        max_texture_dimension_1d: 2048,
        max_texture_dimension_2d: 2048,
        max_texture_dimension_3d: 512,
        max_texture_array_layers: 256,
        max_bind_groups: 6,
        max_bindings_per_bind_group: 640,
        max_dynamic_uniform_buffers_per_pipeline_layout: 0,
        max_dynamic_storage_buffers_per_pipeline_layout: 0,
        max_sampled_textures_per_shader_stage: STARTING_2D_TEXTURES as u32,
        max_samplers_per_shader_stage: 2,
        max_storage_buffers_per_shader_stage: 5,
        max_storage_textures_per_shader_stage: 0,
        max_uniform_buffers_per_shader_stage: 2,
        max_binding_array_elements_per_shader_stage: 1024,
        max_binding_array_sampler_elements_per_shader_stage: 1024,
        max_uniform_buffer_binding_size: MAX_UNIFORM_BUFFER_BINDING_SIZE as u32,
        max_storage_buffer_binding_size: (128 * 1024 * 1024) as u32,
        max_vertex_buffers: 7,
        max_buffer_size: (8192 * 8 * 18) as u64,
        max_vertex_attributes: 7,
        max_vertex_buffer_array_stride: 128,
        min_uniform_buffer_offset_alignment: 256,
        min_storage_buffer_offset_alignment: 256,
        max_inter_stage_shader_components: 60,
        max_color_attachments: 8,
        max_color_attachment_bytes_per_sample: 32,
        max_compute_workgroup_storage_size: 16352,
        max_compute_invocations_per_workgroup: 256,
        max_compute_workgroup_size_x: 256,
        max_compute_workgroup_size_y: 256,
        max_compute_workgroup_size_z: 64,
        max_compute_workgroups_per_dimension: 65535,
        min_subgroup_size: 0,
        max_subgroup_size: 0,
        max_push_constant_size: 128,
        max_non_sampler_bindings: 1_000_000,
        max_task_workgroup_total_count: 0,
        max_task_workgroups_per_dimension: 0,
        max_mesh_output_layers: 0,
        max_mesh_multiview_count: 0,
        max_blas_primitive_count: 0,
        max_blas_geometry_count: 0,
        max_tlas_instance_count: 0,
        max_acceleration_structures_per_shader_stage: 0,
    }
}

/// Limits required to run in the CPU-driven profile.
pub open spec fn cpu_required_limits_spec() -> Limits {
    Limits {
        max_texture_dimension_1d: 2048,
        max_texture_dimension_2d: 2048,
        max_texture_dimension_3d: 512,
        max_texture_array_layers: 256,
        max_bind_groups: 4,
        max_bindings_per_bind_group: 640,
        max_dynamic_uniform_buffers_per_pipeline_layout: 0,
        max_dynamic_storage_buffers_per_pipeline_layout: 0,
        max_sampled_textures_per_shader_stage: 10,
        max_samplers_per_shader_stage: 2,
        max_storage_buffers_per_shader_stage: 2,
        max_storage_textures_per_shader_stage: 0,
        max_uniform_buffers_per_shader_stage: 2,
        max_binding_array_elements_per_shader_stage: 0,
        max_binding_array_sampler_elements_per_shader_stage: 0,
        max_uniform_buffer_binding_size: MAX_UNIFORM_BUFFER_BINDING_SIZE as u32,
        max_storage_buffer_binding_size: (128 * 1024 * 1024) as u32,
        max_vertex_buffers: 6,
        max_buffer_size: (8192 * 8 * 8) as u64,
        max_vertex_attributes: 6,
        max_vertex_buffer_array_stride: 128,
        min_uniform_buffer_offset_alignment: 256,
        min_storage_buffer_offset_alignment: 256,
        max_inter_stage_shader_components: 60,
        max_color_attachments: 8,
        max_color_attachment_bytes_per_sample: 32,
        max_compute_workgroup_storage_size: 16352,
        max_compute_invocations_per_workgroup: 256,
        max_compute_workgroup_size_x: 256,
        max_compute_workgroup_size_y: 256,
        max_compute_workgroup_size_z: 64,
        max_compute_workgroups_per_dimension: 65535,
        min_subgroup_size: 0,
        max_subgroup_size: 0,
        max_push_constant_size: 0,
        max_non_sampler_bindings: 1_000_000,
        max_task_workgroup_total_count: 0,
        max_task_workgroups_per_dimension: 0,
        max_mesh_output_layers: 0,
        max_mesh_multiview_count: 0,
        max_blas_primitive_count: 0,
        max_blas_geometry_count: 0,
        max_tlas_instance_count: 0,
        max_acceleration_structures_per_shader_stage: 0,
    }
}

/// The limits a profile requires.
pub open spec fn required_limits(profile: RendererProfile) -> Limits {
    match profile {
        RendererProfile::GpuDriven => gpu_required_limits_spec(),
        RendererProfile::CpuDriven => cpu_required_limits_spec(),
    }
}

/// Whether a device with limits `device` can run `profile`.
pub open spec fn limits_suffice(profile: RendererProfile, device: Limits) -> bool {
    all_pass(limit_checks(required_limits(profile), device))
}

/// The outcome of checking `device` against `profile`: the granted limits
/// when every check passes, else the error of the first check that fails.
pub open spec fn limits_outcome(profile: RendererProfile, device: Limits) -> Result<
    Limits,
    RendererInitializationError,
> {
    let checks = limit_checks(required_limits(profile), device);
    if all_pass(checks) {
        Ok(granted_limits(device))
    } else {
        Err(limit_error(checks[choose|i: int| is_first_failure(checks, i)]))
    }
}

/// Limits required to run in the GPU-driven profile.
pub fn gpu_required_limits() -> (r: Limits)
    ensures
        r == gpu_required_limits_spec(),
{
    Limits {
        max_texture_dimension_1d: 2048,
        max_texture_dimension_2d: 2048,
        max_texture_dimension_3d: 512,
        max_texture_array_layers: 256,
        max_bind_groups: 6,
        max_bindings_per_bind_group: 640,
        max_dynamic_uniform_buffers_per_pipeline_layout: 0,
        max_dynamic_storage_buffers_per_pipeline_layout: 0,
        max_sampled_textures_per_shader_stage: STARTING_2D_TEXTURES as u32,
        max_samplers_per_shader_stage: 2,
        max_storage_buffers_per_shader_stage: 5,
        max_storage_textures_per_shader_stage: 0,
        max_uniform_buffers_per_shader_stage: 2,
        max_binding_array_elements_per_shader_stage: 1024,
        max_binding_array_sampler_elements_per_shader_stage: 1024,
        max_uniform_buffer_binding_size: MAX_UNIFORM_BUFFER_BINDING_SIZE as u32,
        max_storage_buffer_binding_size: (128 * 1024 * 1024) as u32,
        max_vertex_buffers: 7,
        max_buffer_size: (8192 * 8 * 18) as u64,
        max_vertex_attributes: 7,
        max_vertex_buffer_array_stride: 128,
        min_uniform_buffer_offset_alignment: 256,
        min_storage_buffer_offset_alignment: 256,
        max_inter_stage_shader_components: 60,
        max_color_attachments: 8,
        max_color_attachment_bytes_per_sample: 32,
        max_compute_workgroup_storage_size: 16352,
        max_compute_invocations_per_workgroup: 256,
        max_compute_workgroup_size_x: 256,
        max_compute_workgroup_size_y: 256,
        max_compute_workgroup_size_z: 64,
        max_compute_workgroups_per_dimension: 65535,
        min_subgroup_size: 0,
        max_subgroup_size: 0,
        max_push_constant_size: 128,
        max_non_sampler_bindings: 1_000_000,
        max_task_workgroup_total_count: 0,
        max_task_workgroups_per_dimension: 0,
        max_mesh_output_layers: 0,
        max_mesh_multiview_count: 0,
        max_blas_primitive_count: 0,
        max_blas_geometry_count: 0,
        max_tlas_instance_count: 0,
        max_acceleration_structures_per_shader_stage: 0,
    }
}

/// Limits required to run in the CPU-driven profile.
pub fn cpu_required_limits() -> (r: Limits)
    ensures
        r == cpu_required_limits_spec(),
{
    Limits {
        max_texture_dimension_1d: 2048,
        max_texture_dimension_2d: 2048,
        max_texture_dimension_3d: 512,
        max_texture_array_layers: 256,
        max_bind_groups: 4,
        max_bindings_per_bind_group: 640,
        max_dynamic_uniform_buffers_per_pipeline_layout: 0,
        max_dynamic_storage_buffers_per_pipeline_layout: 0,
        max_sampled_textures_per_shader_stage: 10,
        max_samplers_per_shader_stage: 2,
        max_storage_buffers_per_shader_stage: 2,
        max_storage_textures_per_shader_stage: 0,
        max_uniform_buffers_per_shader_stage: 2,
        max_binding_array_elements_per_shader_stage: 0,
        max_binding_array_sampler_elements_per_shader_stage: 0,
        max_uniform_buffer_binding_size: MAX_UNIFORM_BUFFER_BINDING_SIZE as u32,
        max_storage_buffer_binding_size: (128 * 1024 * 1024) as u32,
        max_vertex_buffers: 6,
        max_buffer_size: (8192 * 8 * 8) as u64,
        max_vertex_attributes: 6,
        max_vertex_buffer_array_stride: 128,
        min_uniform_buffer_offset_alignment: 256,
        min_storage_buffer_offset_alignment: 256,
        max_inter_stage_shader_components: 60,
        max_color_attachments: 8,
        max_color_attachment_bytes_per_sample: 32,
        max_compute_workgroup_storage_size: 16352,
        max_compute_invocations_per_workgroup: 256,
        max_compute_workgroup_size_x: 256,
        max_compute_workgroup_size_y: 256,
        max_compute_workgroup_size_z: 64,
        max_compute_workgroups_per_dimension: 65535,
        min_subgroup_size: 0,
        max_subgroup_size: 0,
        max_push_constant_size: 0,
        max_non_sampler_bindings: 1_000_000,
        max_task_workgroup_total_count: 0,
        max_task_workgroups_per_dimension: 0,
        max_mesh_output_layers: 0,
        max_mesh_multiview_count: 0,
        max_blas_primitive_count: 0,
        max_blas_geometry_count: 0,
        max_tlas_instance_count: 0,
        max_acceleration_structures_per_shader_stage: 0,
    }
}

/// Check a "higher is better" limit: the device value `d` must be at least
/// the required value `r`.
pub fn check_limit_unlimited(d: u64, r: u64, ty: LimitType) -> (res: Result<u64, RendererInitializationError>)
    ensures
        d < r ==> res == Err::<u64, RendererInitializationError>(
            RendererInitializationError::LowDeviceLimit { ty, device_limit: d, required_limit: r },
        ),
        r <= d ==> res == Ok::<u64, RendererInitializationError>(d),
{
    if d < r {
        Err(RendererInitializationError::LowDeviceLimit { ty, device_limit: d, required_limit: r })
    } else {
        Ok(d)
    }
}

/// Check a "lower is better" limit: the device value `d` must be at most
/// the required value `r`.
pub fn check_limit_low(d: u64, r: u64, ty: LimitType) -> (res: Result<u64, RendererInitializationError>)
    ensures
        r < d ==> res == Err::<u64, RendererInitializationError>(
            RendererInitializationError::LowDeviceLimit { ty, device_limit: d, required_limit: r },
        ),
        d <= r ==> res == Ok::<u64, RendererInitializationError>(d),
{
    if r < d {
        Err(RendererInitializationError::LowDeviceLimit { ty, device_limit: d, required_limit: r })
    } else {
        Ok(d)
    }
}

/// The comparisons between `device` and `required`, in the order they are made.
fn limit_check_list(required: &Limits, device: &Limits) -> (checks: Vec<LimitCheck>)
    ensures
        checks@ == limit_checks(*required, *device),
{
    let mut checks: Vec<LimitCheck> = Vec::new();
    checks.push(LimitCheck { ty: LimitType::MaxTextureDimension1d, device_limit: device.max_texture_dimension_1d as u64, required_limit: required.max_texture_dimension_1d as u64, at_most: false });
    checks.push(LimitCheck { ty: LimitType::MaxTextureDimension2d, device_limit: device.max_texture_dimension_2d as u64, required_limit: required.max_texture_dimension_2d as u64, at_most: false });
    checks.push(LimitCheck { ty: LimitType::MaxTextureDimension3d, device_limit: device.max_texture_dimension_3d as u64, required_limit: required.max_texture_dimension_3d as u64, at_most: false });
    checks.push(LimitCheck { ty: LimitType::MaxTextureArrayLayers, device_limit: device.max_texture_array_layers as u64, required_limit: required.max_texture_array_layers as u64, at_most: false });
    checks.push(LimitCheck { ty: LimitType::BindGroups, device_limit: device.max_bind_groups as u64, required_limit: required.max_bind_groups as u64, at_most: false });
    checks.push(LimitCheck { ty: LimitType::MaxBindingsPerBindGroup, device_limit: device.max_bindings_per_bind_group as u64, required_limit: required.max_bindings_per_bind_group as u64, at_most: false });
    checks.push(LimitCheck { ty: LimitType::DynamicUniformBuffersPerPipelineLayout, device_limit: device.max_dynamic_uniform_buffers_per_pipeline_layout as u64, required_limit: required.max_dynamic_uniform_buffers_per_pipeline_layout as u64, at_most: false });
    checks.push(LimitCheck { ty: LimitType::DynamicStorageBuffersPerPipelineLayout, device_limit: device.max_dynamic_storage_buffers_per_pipeline_layout as u64, required_limit: required.max_dynamic_storage_buffers_per_pipeline_layout as u64, at_most: false });
    checks.push(LimitCheck { ty: LimitType::SampledTexturesPerShaderStages, device_limit: device.max_sampled_textures_per_shader_stage as u64, required_limit: required.max_sampled_textures_per_shader_stage as u64, at_most: false });
    checks.push(LimitCheck { ty: LimitType::SamplersPerShaderStages, device_limit: device.max_samplers_per_shader_stage as u64, required_limit: required.max_samplers_per_shader_stage as u64, at_most: false });
    checks.push(LimitCheck { ty: LimitType::StorageBuffersPerShaderStages, device_limit: device.max_storage_buffers_per_shader_stage as u64, required_limit: required.max_storage_buffers_per_shader_stage as u64, at_most: false });
    checks.push(LimitCheck { ty: LimitType::StorageTexturesPerShaderStages, device_limit: device.max_storage_textures_per_shader_stage as u64, required_limit: required.max_storage_textures_per_shader_stage as u64, at_most: false });
    checks.push(LimitCheck { ty: LimitType::StorageTexturesPerShaderStages, device_limit: device.max_uniform_buffers_per_shader_stage as u64, required_limit: required.max_uniform_buffers_per_shader_stage as u64, at_most: false });
    checks.push(LimitCheck { ty: LimitType::UniformBufferBindingSize, device_limit: device.max_uniform_buffer_binding_size as u64, required_limit: required.max_uniform_buffer_binding_size as u64, at_most: false });
    checks.push(LimitCheck { ty: LimitType::MaxStorageBufferBindingSize, device_limit: device.max_storage_buffer_binding_size as u64, required_limit: required.max_storage_buffer_binding_size as u64, at_most: false });
    checks.push(LimitCheck { ty: LimitType::MaxVertexBuffers, device_limit: device.max_vertex_buffers as u64, required_limit: required.max_vertex_buffers as u64, at_most: false });
    checks.push(LimitCheck { ty: LimitType::MaxVertexAttributes, device_limit: device.max_vertex_attributes as u64, required_limit: required.max_vertex_attributes as u64, at_most: false });
    checks.push(LimitCheck { ty: LimitType::MaxVertexBufferArrayStride, device_limit: device.max_vertex_buffer_array_stride as u64, required_limit: required.max_vertex_buffer_array_stride as u64, at_most: false });
    checks.push(LimitCheck { ty: LimitType::PushConstantSize, device_limit: device.max_push_constant_size as u64, required_limit: required.max_push_constant_size as u64, at_most: false });
    checks.push(LimitCheck { ty: LimitType::StorageBufferBindingAlignment, device_limit: device.min_storage_buffer_offset_alignment as u64, required_limit: required.min_storage_buffer_offset_alignment as u64, at_most: true });
    checks.push(LimitCheck { ty: LimitType::UniformBufferBindingAlignment, device_limit: device.min_uniform_buffer_offset_alignment as u64, required_limit: required.min_uniform_buffer_offset_alignment as u64, at_most: true });
    checks.push(LimitCheck { ty: LimitType::MaxInterStageShaderComponents, device_limit: device.max_inter_stage_shader_components as u64, required_limit: required.max_inter_stage_shader_components as u64, at_most: false });
    checks.push(LimitCheck { ty: LimitType::MaxComputeWorkgroupStorageSize, device_limit: device.max_compute_workgroup_storage_size as u64, required_limit: required.max_compute_workgroup_storage_size as u64, at_most: false });
    checks.push(LimitCheck { ty: LimitType::MaxComputeInvocationsPerWorkgroup, device_limit: device.max_compute_invocations_per_workgroup as u64, required_limit: required.max_compute_invocations_per_workgroup as u64, at_most: false });
    checks.push(LimitCheck { ty: LimitType::MaxComputeWorkgroupSizeX, device_limit: device.max_compute_workgroup_size_x as u64, required_limit: required.max_compute_workgroup_size_x as u64, at_most: false });
    checks.push(LimitCheck { ty: LimitType::MaxComputeWorkgroupSizeY, device_limit: device.max_compute_workgroup_size_y as u64, required_limit: required.max_compute_workgroup_size_y as u64, at_most: false });
    checks.push(LimitCheck { ty: LimitType::MaxComputeWorkgroupSizeZ, device_limit: device.max_compute_workgroup_size_z as u64, required_limit: required.max_compute_workgroup_size_z as u64, at_most: false });
    checks.push(LimitCheck { ty: LimitType::MaxComputeWorkgroupsPerDimension, device_limit: device.max_compute_workgroups_per_dimension as u64, required_limit: required.max_compute_workgroups_per_dimension as u64, at_most: false });
    checks.push(LimitCheck { ty: LimitType::MaxBufferSize, device_limit: device.max_buffer_size, required_limit: required.max_buffer_size, at_most: false });
    checks.push(LimitCheck { ty: LimitType::MaxColorAttachmentBytesPerSample, device_limit: device.max_color_attachment_bytes_per_sample as u64, required_limit: required.max_color_attachment_bytes_per_sample as u64, at_most: false });
    checks.push(LimitCheck { ty: LimitType::MaxColorAttachments, device_limit: device.max_color_attachments as u64, required_limit: required.max_color_attachments as u64, at_most: false });
    checks.push(LimitCheck { ty: LimitType::MaxSubgroupSize, device_limit: device.max_subgroup_size as u64, required_limit: required.max_subgroup_size as u64, at_most: false });
    checks.push(LimitCheck { ty: LimitType::MinSubgroupSize, device_limit: device.min_subgroup_size as u64, required_limit: required.min_subgroup_size as u64, at_most: false });
    checks.push(LimitCheck { ty: LimitType::MaxAccelerationStructureSize, device_limit: device.max_acceleration_structures_per_shader_stage as u64, required_limit: required.max_acceleration_structures_per_shader_stage as u64, at_most: false });
    checks.push(LimitCheck { ty: LimitType::MaxAccelerationStructureSize, device_limit: device.max_blas_geometry_count as u64, required_limit: required.max_blas_geometry_count as u64, at_most: false });
    checks.push(LimitCheck { ty: LimitType::MaxAccelerationStructureSize, device_limit: device.max_blas_primitive_count as u64, required_limit: required.max_blas_primitive_count as u64, at_most: false });
    checks.push(LimitCheck { ty: LimitType::MaxAccelerationStructureSize, device_limit: device.max_tlas_instance_count as u64, required_limit: required.max_tlas_instance_count as u64, at_most: false });
    checks.push(LimitCheck { ty: LimitType::MeshShaderLimits, device_limit: device.max_mesh_output_layers as u64, required_limit: required.max_mesh_output_layers as u64, at_most: false });
    checks.push(LimitCheck { ty: LimitType::MeshShaderLimits, device_limit: device.max_mesh_multiview_count as u64, required_limit: required.max_mesh_multiview_count as u64, at_most: false });
    checks.push(LimitCheck { ty: LimitType::MeshShaderLimits, device_limit: device.max_task_workgroups_per_dimension as u64, required_limit: required.max_task_workgroups_per_dimension as u64, at_most: false });
    checks.push(LimitCheck { ty: LimitType::MeshShaderLimits, device_limit: device.max_task_workgroup_total_count as u64, required_limit: required.max_task_workgroup_total_count as u64, at_most: false });
    checks.push(LimitCheck { ty: LimitType::MaxBindingArrayElements, device_limit: device.max_binding_array_sampler_elements_per_shader_stage as u64, required_limit: required.max_binding_array_sampler_elements_per_shader_stage as u64, at_most: false });
    checks.push(LimitCheck { ty: LimitType::MaxBindingArrayElements, device_limit: device.max_binding_array_elements_per_shader_stage as u64, required_limit: required.max_binding_array_elements_per_shader_stage as u64, at_most: false });
    assert(checks@ =~= limit_checks(*required, *device));
    checks
}

/// Check that all required limits for a given profile are present in the
/// given limit set. On success, returns the device's limits, with the
/// non-sampler bindings fixed at one million; else the first limit, in the
/// order of `limit_checks`, that is not good enough.
pub fn check_limits(profile: RendererProfile, device_limits: &Limits) -> (res: Result<
    Limits,
    RendererInitializationError,
>)
    ensures
        res == limits_outcome(profile, *device_limits),
        res is Ok <==> limits_suffice(profile, *device_limits),
{
    let required = match profile {
        RendererProfile::GpuDriven => gpu_required_limits(),
        RendererProfile::CpuDriven => cpu_required_limits(),
    };
    let checks = limit_check_list(&required, device_limits);
    let ghost spec_checks = limit_checks(required_limits(profile), *device_limits);
    let mut i: usize = 0;
    while i < checks.len()
        invariant
            checks@ == spec_checks,
            spec_checks == limit_checks(required_limits(profile), *device_limits),
            i <= checks@.len(),
            forall|j: int| 0 <= j < i ==> #[trigger] check_passes(spec_checks[j]),
        decreases checks@.len() - i,
    {
        let c = checks[i];
        let outcome = if c.at_most {
            check_limit_low(c.device_limit, c.required_limit, c.ty)
        } else {
            check_limit_unlimited(c.device_limit, c.required_limit, c.ty)
        };
        match outcome {
            Err(e) => {
                proof {
                    assert(is_first_failure(spec_checks, i as int));
                    let k = choose|k: int| is_first_failure(spec_checks, k);
                    if k < i {
                        assert(check_passes(spec_checks[k]));
                    }
                    if i < k {
                        assert(check_passes(spec_checks[i as int]));
                    }
                    assert(k == i);
                }
                return Err(e);
            },
            Ok(_) => {},
        }
        i = i + 1;
    }
    Ok(Limits { max_non_sampler_bindings: 1_000_000, ..*device_limits })
}

/// Law: checking again the limits that a successful check granted succeeds
/// and grants the same limits.
pub proof fn lemma_check_limits_idempotent(profile: RendererProfile, device: Limits)
    requires
        limits_outcome(profile, device) is Ok,
    ensures
        limits_outcome(profile, limits_outcome(profile, device)->Ok_0) == limits_outcome(
            profile,
            device,
        ),
{
    let granted = granted_limits(device);
    assert(limit_checks(required_limits(profile), granted) =~= limit_checks(
        required_limits(profile),
        device,
    ));
    assert(granted_limits(granted) == granted);
}

/// Law: a device that meets the limits of the GPU-driven profile meets those
/// of the CPU-driven profile.
pub proof fn lemma_gpu_limits_imply_cpu_limits(device: Limits)
    requires
        limits_suffice(RendererProfile::GpuDriven, device),
    ensures
        limits_suffice(RendererProfile::CpuDriven, device),
{
    let gpu = limit_checks(gpu_required_limits_spec(), device);
    let cpu = limit_checks(cpu_required_limits_spec(), device);
    assert forall|i: int| 0 <= i < cpu.len() implies #[trigger] check_passes(cpu[i]) by {
        assert(check_passes(gpu[i]));
    }
}

/// Law: a device meets the limits of the GPU-driven profile exactly when each
/// compared limit is at least the GPU-driven requirement, except the two
/// offset alignments, which must be at most 256 ("lower is better");
/// `max_non_sampler_bindings` is not compared.
pub proof fn lemma_gpu_driven_limits_fieldwise(device: Limits)
    ensures
        limits_suffice(RendererProfile::GpuDriven, device) <==> ({
            &&& device.max_texture_dimension_1d >= 2048
            &&& device.max_texture_dimension_2d >= 2048
            &&& device.max_texture_dimension_3d >= 512
            &&& device.max_texture_array_layers >= 256
            &&& device.max_bind_groups >= 6
            &&& device.max_bindings_per_bind_group >= 640
            &&& device.max_dynamic_uniform_buffers_per_pipeline_layout >= 0
            &&& device.max_dynamic_storage_buffers_per_pipeline_layout >= 0
            &&& device.max_sampled_textures_per_shader_stage >= 256
            &&& device.max_samplers_per_shader_stage >= 2
            &&& device.max_storage_buffers_per_shader_stage >= 5
            &&& device.max_storage_textures_per_shader_stage >= 0
            &&& device.max_uniform_buffers_per_shader_stage >= 2
            &&& device.max_uniform_buffer_binding_size >= 1024
            &&& device.max_storage_buffer_binding_size >= 134_217_728
            &&& device.max_vertex_buffers >= 7
            &&& device.max_vertex_attributes >= 7
            &&& device.max_vertex_buffer_array_stride >= 128
            &&& device.max_push_constant_size >= 128
            &&& device.min_storage_buffer_offset_alignment <= 256
            &&& device.min_uniform_buffer_offset_alignment <= 256
            &&& device.max_inter_stage_shader_components >= 60
            &&& device.max_compute_workgroup_storage_size >= 16352
            &&& device.max_compute_invocations_per_workgroup >= 256
            &&& device.max_compute_workgroup_size_x >= 256
            &&& device.max_compute_workgroup_size_y >= 256
            &&& device.max_compute_workgroup_size_z >= 64
            &&& device.max_compute_workgroups_per_dimension >= 65535
            &&& device.max_buffer_size >= 1_179_648
            &&& device.max_color_attachment_bytes_per_sample >= 32
            &&& device.max_color_attachments >= 8
            &&& device.max_subgroup_size >= 0
            &&& device.min_subgroup_size >= 0
            &&& device.max_acceleration_structures_per_shader_stage >= 0
            &&& device.max_blas_geometry_count >= 0
            &&& device.max_blas_primitive_count >= 0
            &&& device.max_tlas_instance_count >= 0
            &&& device.max_mesh_output_layers >= 0
            &&& device.max_mesh_multiview_count >= 0
            &&& device.max_task_workgroups_per_dimension >= 0
            &&& device.max_task_workgroup_total_count >= 0
            &&& device.max_binding_array_sampler_elements_per_shader_stage >= 1024
            &&& device.max_binding_array_elements_per_shader_stage >= 1024
        }),
{
    let checks = limit_checks(required_limits(RendererProfile::GpuDriven), device);
    if limits_suffice(RendererProfile::GpuDriven, device) {
        assert(check_passes(checks[0]));
        assert(check_passes(checks[1]));
        assert(check_passes(checks[2]));
        assert(check_passes(checks[3]));
        assert(check_passes(checks[4]));
        assert(check_passes(checks[5]));
        assert(check_passes(checks[6]));
        assert(check_passes(checks[7]));
        assert(check_passes(checks[8]));
        assert(check_passes(checks[9]));
        assert(check_passes(checks[10]));
        assert(check_passes(checks[11]));
        assert(check_passes(checks[12]));
        assert(check_passes(checks[13]));
        assert(check_passes(checks[14]));
        assert(check_passes(checks[15]));
        assert(check_passes(checks[16]));
        assert(check_passes(checks[17]));
        assert(check_passes(checks[18]));
        assert(check_passes(checks[19]));
        assert(check_passes(checks[20]));
        assert(check_passes(checks[21]));
        assert(check_passes(checks[22]));
        assert(check_passes(checks[23]));
        assert(check_passes(checks[24]));
        assert(check_passes(checks[25]));
        assert(check_passes(checks[26]));
        assert(check_passes(checks[27]));
        assert(check_passes(checks[28]));
        assert(check_passes(checks[29]));
        assert(check_passes(checks[30]));
        assert(check_passes(checks[31]));
        assert(check_passes(checks[32]));
        assert(check_passes(checks[33]));
        assert(check_passes(checks[34]));
        assert(check_passes(checks[35]));
        assert(check_passes(checks[36]));
        assert(check_passes(checks[37]));
        assert(check_passes(checks[38]));
        assert(check_passes(checks[39]));
        assert(check_passes(checks[40]));
        assert(check_passes(checks[41]));
        assert(check_passes(checks[42]));
    }
}

/// Law: a device meets the limits of the CPU-driven profile exactly when each
/// compared limit is at least the CPU-driven requirement, except the two
/// offset alignments, which must be at most 256 ("lower is better");
/// `max_non_sampler_bindings` is not compared.
pub proof fn lemma_cpu_driven_limits_fieldwise(device: Limits)
    ensures
        limits_suffice(RendererProfile::CpuDriven, device) <==> ({
            &&& device.max_texture_dimension_1d >= 2048
            &&& device.max_texture_dimension_2d >= 2048
            &&& device.max_texture_dimension_3d >= 512
            &&& device.max_texture_array_layers >= 256
            &&& device.max_bind_groups >= 4
            &&& device.max_bindings_per_bind_group >= 640
            &&& device.max_dynamic_uniform_buffers_per_pipeline_layout >= 0
            &&& device.max_dynamic_storage_buffers_per_pipeline_layout >= 0
            &&& device.max_sampled_textures_per_shader_stage >= 10
            &&& device.max_samplers_per_shader_stage >= 2
            &&& device.max_storage_buffers_per_shader_stage >= 2
            &&& device.max_storage_textures_per_shader_stage >= 0
            &&& device.max_uniform_buffers_per_shader_stage >= 2
            &&& device.max_uniform_buffer_binding_size >= 1024
            &&& device.max_storage_buffer_binding_size >= 134_217_728
            &&& device.max_vertex_buffers >= 6
            &&& device.max_vertex_attributes >= 6
            &&& device.max_vertex_buffer_array_stride >= 128
            &&& device.max_push_constant_size >= 0
            &&& device.min_storage_buffer_offset_alignment <= 256
            &&& device.min_uniform_buffer_offset_alignment <= 256
            &&& device.max_inter_stage_shader_components >= 60
            &&& device.max_compute_workgroup_storage_size >= 16352
            &&& device.max_compute_invocations_per_workgroup >= 256
            &&& device.max_compute_workgroup_size_x >= 256
            &&& device.max_compute_workgroup_size_y >= 256
            &&& device.max_compute_workgroup_size_z >= 64
            &&& device.max_compute_workgroups_per_dimension >= 65535
            &&& device.max_buffer_size >= 524_288
            &&& device.max_color_attachment_bytes_per_sample >= 32
            &&& device.max_color_attachments >= 8
            &&& device.max_subgroup_size >= 0
            &&& device.min_subgroup_size >= 0
            &&& device.max_acceleration_structures_per_shader_stage >= 0
            &&& device.max_blas_geometry_count >= 0
            &&& device.max_blas_primitive_count >= 0
            &&& device.max_tlas_instance_count >= 0
            &&& device.max_mesh_output_layers >= 0
            &&& device.max_mesh_multiview_count >= 0
            &&& device.max_task_workgroups_per_dimension >= 0
            &&& device.max_task_workgroup_total_count >= 0
            &&& device.max_binding_array_sampler_elements_per_shader_stage >= 0
            &&& device.max_binding_array_elements_per_shader_stage >= 0
        }),
{
    let checks = limit_checks(required_limits(RendererProfile::CpuDriven), device);
    if limits_suffice(RendererProfile::CpuDriven, device) {
        assert(check_passes(checks[0]));
        assert(check_passes(checks[1]));
        assert(check_passes(checks[2]));
        assert(check_passes(checks[3]));
        assert(check_passes(checks[4]));
        assert(check_passes(checks[5]));
        assert(check_passes(checks[6]));
        assert(check_passes(checks[7]));
        assert(check_passes(checks[8]));
        assert(check_passes(checks[9]));
        assert(check_passes(checks[10]));
        assert(check_passes(checks[11]));
        assert(check_passes(checks[12]));
        assert(check_passes(checks[13]));
        assert(check_passes(checks[14]));
        assert(check_passes(checks[15]));
        assert(check_passes(checks[16]));
        assert(check_passes(checks[17]));
        assert(check_passes(checks[18]));
        assert(check_passes(checks[19]));
        assert(check_passes(checks[20]));
        assert(check_passes(checks[21]));
        assert(check_passes(checks[22]));
        assert(check_passes(checks[23]));
        assert(check_passes(checks[24]));
        assert(check_passes(checks[25]));
        assert(check_passes(checks[26]));
        assert(check_passes(checks[27]));
        assert(check_passes(checks[28]));
        assert(check_passes(checks[29]));
        assert(check_passes(checks[30]));
        assert(check_passes(checks[31]));
        assert(check_passes(checks[32]));
        assert(check_passes(checks[33]));
        assert(check_passes(checks[34]));
        assert(check_passes(checks[35]));
        assert(check_passes(checks[36]));
        assert(check_passes(checks[37]));
        assert(check_passes(checks[38]));
        assert(check_passes(checks[39]));
        assert(check_passes(checks[40]));
        assert(check_passes(checks[41]));
        assert(check_passes(checks[42]));
    }
}

/// Law: checking limits succeeds exactly when the device meets the profile,
/// and then grants the device's own limits with the non-sampler bindings set
/// to one million; a failure is always a low device limit whose device value
/// is worse than the required one.
pub proof fn lemma_check_limits_outcome(profile: RendererProfile, device: Limits)
    ensures
        limits_outcome(profile, device) is Ok <==> limits_suffice(profile, device),
        limits_outcome(profile, device) matches Ok(granted) ==> granted == (Limits {
            max_non_sampler_bindings: 1_000_000,
            ..device
        }),
        limits_outcome(profile, device) matches Err(e) ==> (e matches
            RendererInitializationError::LowDeviceLimit { device_limit, required_limit, .. }
            && device_limit != required_limit),
{
    let checks = limit_checks(required_limits(profile), device);
    if !all_pass(checks) {
        let i = choose|i: int| 0 <= i < checks.len() && !check_passes(checks[i]);
        lemma_first_failure_exists(checks, i);
    }
}

/// Where some check fails, a first failing check exists.
proof fn lemma_first_failure_exists(checks: Seq<LimitCheck>, i: int)
    requires
        0 <= i < checks.len(),
        !check_passes(checks[i]),
    ensures
        exists|k: int| is_first_failure(checks, k),
    decreases i,
{
    if forall|j: int| 0 <= j < i ==> #[trigger] check_passes(checks[j]) {
        assert(is_first_failure(checks, i));
    } else {
        let j = choose|j: int| 0 <= j < i && !check_passes(checks[j]);
        lemma_first_failure_exists(checks, j);
    }
}

/// Where check `k` is the first that fails, its error is the outcome.
proof fn lemma_only_failure_reported(profile: RendererProfile, device: Limits, k: int)
    requires
        is_first_failure(limit_checks(required_limits(profile), device), k),
    ensures
        limits_outcome(profile, device) == Err::<Limits, RendererInitializationError>(
            limit_error(limit_checks(required_limits(profile), device)[k]),
        ),
{
    let checks = limit_checks(required_limits(profile), device);
    assert(!check_passes(checks[k]));
    let c = choose|i: int| is_first_failure(checks, i);
    assert(is_first_failure(checks, c));
    if c < k {
        assert(check_passes(checks[c]));
    }
    if k < c {
        assert(check_passes(checks[k]));
    }
}

proof fn low_max_texture_dimension_1d_reported(v: u32)
    ensures
        v < 2048 ==> limits_outcome(
            RendererProfile::GpuDriven,
            Limits { max_texture_dimension_1d: v, ..required_limits(RendererProfile::GpuDriven) },
        ) == Err::<Limits, RendererInitializationError>(
            RendererInitializationError::LowDeviceLimit {
                ty: LimitType::MaxTextureDimension1d,
                device_limit: v as u64,
                required_limit: 2048,
            },
        ),
{
    if v < 2048 {
        lemma_only_failure_reported(RendererProfile::GpuDriven, Limits { max_texture_dimension_1d: v, ..required_limits(RendererProfile::GpuDriven) }, 0);
    }
}
proof fn low_max_texture_dimension_2d_reported(v: u32)
    ensures
        v < 2048 ==> limits_outcome(
            RendererProfile::GpuDriven,
            Limits { max_texture_dimension_2d: v, ..required_limits(RendererProfile::GpuDriven) },
        ) == Err::<Limits, RendererInitializationError>(
            RendererInitializationError::LowDeviceLimit {
                ty: LimitType::MaxTextureDimension2d,
                device_limit: v as u64,
                required_limit: 2048,
            },
        ),
{
    if v < 2048 {
        lemma_only_failure_reported(RendererProfile::GpuDriven, Limits { max_texture_dimension_2d: v, ..required_limits(RendererProfile::GpuDriven) }, 1);
    }
}
proof fn low_max_texture_dimension_3d_reported(v: u32)
    ensures
        v < 512 ==> limits_outcome(
            RendererProfile::GpuDriven,
            Limits { max_texture_dimension_3d: v, ..required_limits(RendererProfile::GpuDriven) },
        ) == Err::<Limits, RendererInitializationError>(
            RendererInitializationError::LowDeviceLimit {
                ty: LimitType::MaxTextureDimension3d,
                device_limit: v as u64,
                required_limit: 512,
            },
        ),
{
    if v < 512 {
        lemma_only_failure_reported(RendererProfile::GpuDriven, Limits { max_texture_dimension_3d: v, ..required_limits(RendererProfile::GpuDriven) }, 2);
    }
}
proof fn low_max_texture_array_layers_reported(v: u32)
    ensures
        v < 256 ==> limits_outcome(
            RendererProfile::GpuDriven,
            Limits { max_texture_array_layers: v, ..required_limits(RendererProfile::GpuDriven) },
        ) == Err::<Limits, RendererInitializationError>(
            RendererInitializationError::LowDeviceLimit {
                ty: LimitType::MaxTextureArrayLayers,
                device_limit: v as u64,
                required_limit: 256,
            },
        ),
{
    if v < 256 {
        lemma_only_failure_reported(RendererProfile::GpuDriven, Limits { max_texture_array_layers: v, ..required_limits(RendererProfile::GpuDriven) }, 3);
    }
}
proof fn low_max_bind_groups_reported(v: u32)
    ensures
        v < 6 ==> limits_outcome(
            RendererProfile::GpuDriven,
            Limits { max_bind_groups: v, ..required_limits(RendererProfile::GpuDriven) },
        ) == Err::<Limits, RendererInitializationError>(
            RendererInitializationError::LowDeviceLimit {
                ty: LimitType::BindGroups,
                device_limit: v as u64,
                required_limit: 6,
            },
        ),
{
    if v < 6 {
        lemma_only_failure_reported(RendererProfile::GpuDriven, Limits { max_bind_groups: v, ..required_limits(RendererProfile::GpuDriven) }, 4);
    }
}
proof fn low_max_bindings_per_bind_group_reported(v: u32)
    ensures
        v < 640 ==> limits_outcome(
            RendererProfile::GpuDriven,
            Limits { max_bindings_per_bind_group: v, ..required_limits(RendererProfile::GpuDriven) },
        ) == Err::<Limits, RendererInitializationError>(
            RendererInitializationError::LowDeviceLimit {
                ty: LimitType::MaxBindingsPerBindGroup,
                device_limit: v as u64,
                required_limit: 640,
            },
        ),
{
    if v < 640 {
        lemma_only_failure_reported(RendererProfile::GpuDriven, Limits { max_bindings_per_bind_group: v, ..required_limits(RendererProfile::GpuDriven) }, 5);
    }
}
proof fn low_max_sampled_textures_per_shader_stage_reported(v: u32)
    ensures
        v < 256 ==> limits_outcome(
            RendererProfile::GpuDriven,
            Limits { max_sampled_textures_per_shader_stage: v, ..required_limits(RendererProfile::GpuDriven) },
        ) == Err::<Limits, RendererInitializationError>(
            RendererInitializationError::LowDeviceLimit {
                ty: LimitType::SampledTexturesPerShaderStages,
                device_limit: v as u64,
                required_limit: 256,
            },
        ),
{
    if v < 256 {
        lemma_only_failure_reported(RendererProfile::GpuDriven, Limits { max_sampled_textures_per_shader_stage: v, ..required_limits(RendererProfile::GpuDriven) }, 8);
    }
}
proof fn low_max_samplers_per_shader_stage_reported(v: u32)
    ensures
        v < 2 ==> limits_outcome(
            RendererProfile::GpuDriven,
            Limits { max_samplers_per_shader_stage: v, ..required_limits(RendererProfile::GpuDriven) },
        ) == Err::<Limits, RendererInitializationError>(
            RendererInitializationError::LowDeviceLimit {
                ty: LimitType::SamplersPerShaderStages,
                device_limit: v as u64,
                required_limit: 2,
            },
        ),
{
    if v < 2 {
        lemma_only_failure_reported(RendererProfile::GpuDriven, Limits { max_samplers_per_shader_stage: v, ..required_limits(RendererProfile::GpuDriven) }, 9);
    }
}
proof fn low_max_storage_buffers_per_shader_stage_reported(v: u32)
    ensures
        v < 5 ==> limits_outcome(
            RendererProfile::GpuDriven,
            Limits { max_storage_buffers_per_shader_stage: v, ..required_limits(RendererProfile::GpuDriven) },
        ) == Err::<Limits, RendererInitializationError>(
            RendererInitializationError::LowDeviceLimit {
                ty: LimitType::StorageBuffersPerShaderStages,
                device_limit: v as u64,
                required_limit: 5,
            },
        ),
{
    if v < 5 {
        lemma_only_failure_reported(RendererProfile::GpuDriven, Limits { max_storage_buffers_per_shader_stage: v, ..required_limits(RendererProfile::GpuDriven) }, 10);
    }
}
proof fn low_max_uniform_buffers_per_shader_stage_reported(v: u32)
    ensures
        v < 2 ==> limits_outcome(
            RendererProfile::GpuDriven,
            Limits { max_uniform_buffers_per_shader_stage: v, ..required_limits(RendererProfile::GpuDriven) },
        ) == Err::<Limits, RendererInitializationError>(
            RendererInitializationError::LowDeviceLimit {
                ty: LimitType::StorageTexturesPerShaderStages,
                device_limit: v as u64,
                required_limit: 2,
            },
        ),
{
    if v < 2 {
        lemma_only_failure_reported(RendererProfile::GpuDriven, Limits { max_uniform_buffers_per_shader_stage: v, ..required_limits(RendererProfile::GpuDriven) }, 12);
    }
}
proof fn low_max_uniform_buffer_binding_size_reported(v: u32)
    ensures
        v < 1024 ==> limits_outcome(
            RendererProfile::GpuDriven,
            Limits { max_uniform_buffer_binding_size: v, ..required_limits(RendererProfile::GpuDriven) },
        ) == Err::<Limits, RendererInitializationError>(
            RendererInitializationError::LowDeviceLimit {
                ty: LimitType::UniformBufferBindingSize,
                device_limit: v as u64,
                required_limit: 1024,
            },
        ),
{
    if v < 1024 {
        lemma_only_failure_reported(RendererProfile::GpuDriven, Limits { max_uniform_buffer_binding_size: v, ..required_limits(RendererProfile::GpuDriven) }, 13);
    }
}
proof fn low_max_storage_buffer_binding_size_reported(v: u32)
    ensures
        v < 134_217_728 ==> limits_outcome(
            RendererProfile::GpuDriven,
            Limits { max_storage_buffer_binding_size: v, ..required_limits(RendererProfile::GpuDriven) },
        ) == Err::<Limits, RendererInitializationError>(
            RendererInitializationError::LowDeviceLimit {
                ty: LimitType::MaxStorageBufferBindingSize,
                device_limit: v as u64,
                required_limit: 134_217_728,
            },
        ),
{
    if v < 134_217_728 {
        lemma_only_failure_reported(RendererProfile::GpuDriven, Limits { max_storage_buffer_binding_size: v, ..required_limits(RendererProfile::GpuDriven) }, 14);
    }
}
proof fn low_max_vertex_buffers_reported(v: u32)
    ensures
        v < 7 ==> limits_outcome(
            RendererProfile::GpuDriven,
            Limits { max_vertex_buffers: v, ..required_limits(RendererProfile::GpuDriven) },
        ) == Err::<Limits, RendererInitializationError>(
            RendererInitializationError::LowDeviceLimit {
                ty: LimitType::MaxVertexBuffers,
                device_limit: v as u64,
                required_limit: 7,
            },
        ),
{
    if v < 7 {
        lemma_only_failure_reported(RendererProfile::GpuDriven, Limits { max_vertex_buffers: v, ..required_limits(RendererProfile::GpuDriven) }, 15);
    }
}
proof fn low_max_vertex_attributes_reported(v: u32)
    ensures
        v < 7 ==> limits_outcome(
            RendererProfile::GpuDriven,
            Limits { max_vertex_attributes: v, ..required_limits(RendererProfile::GpuDriven) },
        ) == Err::<Limits, RendererInitializationError>(
            RendererInitializationError::LowDeviceLimit {
                ty: LimitType::MaxVertexAttributes,
                device_limit: v as u64,
                required_limit: 7,
            },
        ),
{
    if v < 7 {
        lemma_only_failure_reported(RendererProfile::GpuDriven, Limits { max_vertex_attributes: v, ..required_limits(RendererProfile::GpuDriven) }, 16);
    }
}
proof fn low_max_vertex_buffer_array_stride_reported(v: u32)
    ensures
        v < 128 ==> limits_outcome(
            RendererProfile::GpuDriven,
            Limits { max_vertex_buffer_array_stride: v, ..required_limits(RendererProfile::GpuDriven) },
        ) == Err::<Limits, RendererInitializationError>(
            RendererInitializationError::LowDeviceLimit {
                ty: LimitType::MaxVertexBufferArrayStride,
                device_limit: v as u64,
                required_limit: 128,
            },
        ),
{
    if v < 128 {
        lemma_only_failure_reported(RendererProfile::GpuDriven, Limits { max_vertex_buffer_array_stride: v, ..required_limits(RendererProfile::GpuDriven) }, 17);
    }
}
proof fn low_max_push_constant_size_reported(v: u32)
    ensures
        v < 128 ==> limits_outcome(
            RendererProfile::GpuDriven,
            Limits { max_push_constant_size: v, ..required_limits(RendererProfile::GpuDriven) },
        ) == Err::<Limits, RendererInitializationError>(
            RendererInitializationError::LowDeviceLimit {
                ty: LimitType::PushConstantSize,
                device_limit: v as u64,
                required_limit: 128,
            },
        ),
{
    if v < 128 {
        lemma_only_failure_reported(RendererProfile::GpuDriven, Limits { max_push_constant_size: v, ..required_limits(RendererProfile::GpuDriven) }, 18);
    }
}
proof fn low_min_storage_buffer_offset_alignment_reported(v: u32)
    ensures
        v > 256 ==> limits_outcome(
            RendererProfile::GpuDriven,
            Limits { min_storage_buffer_offset_alignment: v, ..required_limits(RendererProfile::GpuDriven) },
        ) == Err::<Limits, RendererInitializationError>(
            RendererInitializationError::LowDeviceLimit {
                ty: LimitType::StorageBufferBindingAlignment,
                device_limit: v as u64,
                required_limit: 256,
            },
        ),
{
    if v > 256 {
        lemma_only_failure_reported(RendererProfile::GpuDriven, Limits { min_storage_buffer_offset_alignment: v, ..required_limits(RendererProfile::GpuDriven) }, 19);
    }
}
proof fn low_min_uniform_buffer_offset_alignment_reported(v: u32)
    ensures
        v > 256 ==> limits_outcome(
            RendererProfile::GpuDriven,
            Limits { min_uniform_buffer_offset_alignment: v, ..required_limits(RendererProfile::GpuDriven) },
        ) == Err::<Limits, RendererInitializationError>(
            RendererInitializationError::LowDeviceLimit {
                ty: LimitType::UniformBufferBindingAlignment,
                device_limit: v as u64,
                required_limit: 256,
            },
        ),
{
    if v > 256 {
        lemma_only_failure_reported(RendererProfile::GpuDriven, Limits { min_uniform_buffer_offset_alignment: v, ..required_limits(RendererProfile::GpuDriven) }, 20);
    }
}
proof fn low_max_inter_stage_shader_components_reported(v: u32)
    ensures
        v < 60 ==> limits_outcome(
            RendererProfile::GpuDriven,
            Limits { max_inter_stage_shader_components: v, ..required_limits(RendererProfile::GpuDriven) },
        ) == Err::<Limits, RendererInitializationError>(
            RendererInitializationError::LowDeviceLimit {
                ty: LimitType::MaxInterStageShaderComponents,
                device_limit: v as u64,
                required_limit: 60,
            },
        ),
{
    if v < 60 {
        lemma_only_failure_reported(RendererProfile::GpuDriven, Limits { max_inter_stage_shader_components: v, ..required_limits(RendererProfile::GpuDriven) }, 21);
    }
}
proof fn low_max_compute_workgroup_storage_size_reported(v: u32)
    ensures
        v < 16352 ==> limits_outcome(
            RendererProfile::GpuDriven,
            Limits { max_compute_workgroup_storage_size: v, ..required_limits(RendererProfile::GpuDriven) },
        ) == Err::<Limits, RendererInitializationError>(
            RendererInitializationError::LowDeviceLimit {
                ty: LimitType::MaxComputeWorkgroupStorageSize,
                device_limit: v as u64,
                required_limit: 16352,
            },
        ),
{
    if v < 16352 {
        lemma_only_failure_reported(RendererProfile::GpuDriven, Limits { max_compute_workgroup_storage_size: v, ..required_limits(RendererProfile::GpuDriven) }, 22);
    }
}
proof fn low_max_compute_invocations_per_workgroup_reported(v: u32)
    ensures
        v < 256 ==> limits_outcome(
            RendererProfile::GpuDriven,
            Limits { max_compute_invocations_per_workgroup: v, ..required_limits(RendererProfile::GpuDriven) },
        ) == Err::<Limits, RendererInitializationError>(
            RendererInitializationError::LowDeviceLimit {
                ty: LimitType::MaxComputeInvocationsPerWorkgroup,
                device_limit: v as u64,
                required_limit: 256,
            },
        ),
{
    if v < 256 {
        lemma_only_failure_reported(RendererProfile::GpuDriven, Limits { max_compute_invocations_per_workgroup: v, ..required_limits(RendererProfile::GpuDriven) }, 23);
    }
}
proof fn low_max_compute_workgroup_size_x_reported(v: u32)
    ensures
        v < 256 ==> limits_outcome(
            RendererProfile::GpuDriven,
            Limits { max_compute_workgroup_size_x: v, ..required_limits(RendererProfile::GpuDriven) },
        ) == Err::<Limits, RendererInitializationError>(
            RendererInitializationError::LowDeviceLimit {
                ty: LimitType::MaxComputeWorkgroupSizeX,
                device_limit: v as u64,
                required_limit: 256,
            },
        ),
{
    if v < 256 {
        lemma_only_failure_reported(RendererProfile::GpuDriven, Limits { max_compute_workgroup_size_x: v, ..required_limits(RendererProfile::GpuDriven) }, 24);
    }
}
proof fn low_max_compute_workgroup_size_y_reported(v: u32)
    ensures
        v < 256 ==> limits_outcome(
            RendererProfile::GpuDriven,
            Limits { max_compute_workgroup_size_y: v, ..required_limits(RendererProfile::GpuDriven) },
        ) == Err::<Limits, RendererInitializationError>(
            RendererInitializationError::LowDeviceLimit {
                ty: LimitType::MaxComputeWorkgroupSizeY,
                device_limit: v as u64,
                required_limit: 256,
            },
        ),
{
    if v < 256 {
        lemma_only_failure_reported(RendererProfile::GpuDriven, Limits { max_compute_workgroup_size_y: v, ..required_limits(RendererProfile::GpuDriven) }, 25);
    }
}
proof fn low_max_compute_workgroup_size_z_reported(v: u32)
    ensures
        v < 64 ==> limits_outcome(
            RendererProfile::GpuDriven,
            Limits { max_compute_workgroup_size_z: v, ..required_limits(RendererProfile::GpuDriven) },
        ) == Err::<Limits, RendererInitializationError>(
            RendererInitializationError::LowDeviceLimit {
                ty: LimitType::MaxComputeWorkgroupSizeZ,
                device_limit: v as u64,
                required_limit: 64,
            },
        ),
{
    if v < 64 {
        lemma_only_failure_reported(RendererProfile::GpuDriven, Limits { max_compute_workgroup_size_z: v, ..required_limits(RendererProfile::GpuDriven) }, 26);
    }
}
proof fn low_max_compute_workgroups_per_dimension_reported(v: u32)
    ensures
        v < 65535 ==> limits_outcome(
            RendererProfile::GpuDriven,
            Limits { max_compute_workgroups_per_dimension: v, ..required_limits(RendererProfile::GpuDriven) },
        ) == Err::<Limits, RendererInitializationError>(
            RendererInitializationError::LowDeviceLimit {
                ty: LimitType::MaxComputeWorkgroupsPerDimension,
                device_limit: v as u64,
                required_limit: 65535,
            },
        ),
{
    if v < 65535 {
        lemma_only_failure_reported(RendererProfile::GpuDriven, Limits { max_compute_workgroups_per_dimension: v, ..required_limits(RendererProfile::GpuDriven) }, 27);
    }
}
proof fn low_max_buffer_size_reported(v: u32)
    ensures
        v < 1_179_648 ==> limits_outcome(
            RendererProfile::GpuDriven,
            Limits { max_buffer_size: (v as u64), ..required_limits(RendererProfile::GpuDriven) },
        ) == Err::<Limits, RendererInitializationError>(
            RendererInitializationError::LowDeviceLimit {
                ty: LimitType::MaxBufferSize,
                device_limit: v as u64,
                required_limit: 1_179_648,
            },
        ),
{
    if v < 1_179_648 {
        lemma_only_failure_reported(RendererProfile::GpuDriven, Limits { max_buffer_size: (v as u64), ..required_limits(RendererProfile::GpuDriven) }, 28);
    }
}
proof fn low_max_color_attachment_bytes_per_sample_reported(v: u32)
    ensures
        v < 32 ==> limits_outcome(
            RendererProfile::GpuDriven,
            Limits { max_color_attachment_bytes_per_sample: v, ..required_limits(RendererProfile::GpuDriven) },
        ) == Err::<Limits, RendererInitializationError>(
            RendererInitializationError::LowDeviceLimit {
                ty: LimitType::MaxColorAttachmentBytesPerSample,
                device_limit: v as u64,
                required_limit: 32,
            },
        ),
{
    if v < 32 {
        lemma_only_failure_reported(RendererProfile::GpuDriven, Limits { max_color_attachment_bytes_per_sample: v, ..required_limits(RendererProfile::GpuDriven) }, 29);
    }
}
proof fn low_max_color_attachments_reported(v: u32)
    ensures
        v < 8 ==> limits_outcome(
            RendererProfile::GpuDriven,
            Limits { max_color_attachments: v, ..required_limits(RendererProfile::GpuDriven) },
        ) == Err::<Limits, RendererInitializationError>(
            RendererInitializationError::LowDeviceLimit {
                ty: LimitType::MaxColorAttachments,
                device_limit: v as u64,
                required_limit: 8,
            },
        ),
{
    if v < 8 {
        lemma_only_failure_reported(RendererProfile::GpuDriven, Limits { max_color_attachments: v, ..required_limits(RendererProfile::GpuDriven) }, 30);
    }
}
proof fn low_max_binding_array_sampler_elements_per_shader_stage_reported(v: u32)
    ensures
        v < 1024 ==> limits_outcome(
            RendererProfile::GpuDriven,
            Limits { max_binding_array_sampler_elements_per_shader_stage: v, ..required_limits(RendererProfile::GpuDriven) },
        ) == Err::<Limits, RendererInitializationError>(
            RendererInitializationError::LowDeviceLimit {
                ty: LimitType::MaxBindingArrayElements,
                device_limit: v as u64,
                required_limit: 1024,
            },
        ),
{
    if v < 1024 {
        lemma_only_failure_reported(RendererProfile::GpuDriven, Limits { max_binding_array_sampler_elements_per_shader_stage: v, ..required_limits(RendererProfile::GpuDriven) }, 41);
    }
}
proof fn low_max_binding_array_elements_per_shader_stage_reported(v: u32)
    ensures
        v < 1024 ==> limits_outcome(
            RendererProfile::GpuDriven,
            Limits { max_binding_array_elements_per_shader_stage: v, ..required_limits(RendererProfile::GpuDriven) },
        ) == Err::<Limits, RendererInitializationError>(
            RendererInitializationError::LowDeviceLimit {
                ty: LimitType::MaxBindingArrayElements,
                device_limit: v as u64,
                required_limit: 1024,
            },
        ),
{
    if v < 1024 {
        lemma_only_failure_reported(RendererProfile::GpuDriven, Limits { max_binding_array_elements_per_shader_stage: v, ..required_limits(RendererProfile::GpuDriven) }, 42);
    }
}

/// Law: a device that meets every GPU-driven requirement but one is refused
/// with that limit's kind, the device's value and the required value. (The
/// limits required to be 0 cannot fail and are left out; the uniform-buffer
/// count is reported as `StorageTexturesPerShaderStages`.)
pub proof fn lemma_gpu_driven_low_limit_reported(v: u32)
    ensures
        v < 2048 ==> limits_outcome(
            RendererProfile::GpuDriven,
            Limits { max_texture_dimension_1d: v, ..required_limits(RendererProfile::GpuDriven) },
        ) == Err::<Limits, RendererInitializationError>(
            RendererInitializationError::LowDeviceLimit {
                ty: LimitType::MaxTextureDimension1d,
                device_limit: v as u64,
                required_limit: 2048,
            },
        ),
        v < 2048 ==> limits_outcome(
            RendererProfile::GpuDriven,
            Limits { max_texture_dimension_2d: v, ..required_limits(RendererProfile::GpuDriven) },
        ) == Err::<Limits, RendererInitializationError>(
            RendererInitializationError::LowDeviceLimit {
                ty: LimitType::MaxTextureDimension2d,
                device_limit: v as u64,
                required_limit: 2048,
            },
        ),
        v < 512 ==> limits_outcome(
            RendererProfile::GpuDriven,
            Limits { max_texture_dimension_3d: v, ..required_limits(RendererProfile::GpuDriven) },
        ) == Err::<Limits, RendererInitializationError>(
            RendererInitializationError::LowDeviceLimit {
                ty: LimitType::MaxTextureDimension3d,
                device_limit: v as u64,
                required_limit: 512,
            },
        ),
        v < 256 ==> limits_outcome(
            RendererProfile::GpuDriven,
            Limits { max_texture_array_layers: v, ..required_limits(RendererProfile::GpuDriven) },
        ) == Err::<Limits, RendererInitializationError>(
            RendererInitializationError::LowDeviceLimit {
                ty: LimitType::MaxTextureArrayLayers,
                device_limit: v as u64,
                required_limit: 256,
            },
        ),
        v < 6 ==> limits_outcome(
            RendererProfile::GpuDriven,
            Limits { max_bind_groups: v, ..required_limits(RendererProfile::GpuDriven) },
        ) == Err::<Limits, RendererInitializationError>(
            RendererInitializationError::LowDeviceLimit {
                ty: LimitType::BindGroups,
                device_limit: v as u64,
                required_limit: 6,
            },
        ),
        v < 640 ==> limits_outcome(
            RendererProfile::GpuDriven,
            Limits { max_bindings_per_bind_group: v, ..required_limits(RendererProfile::GpuDriven) },
        ) == Err::<Limits, RendererInitializationError>(
            RendererInitializationError::LowDeviceLimit {
                ty: LimitType::MaxBindingsPerBindGroup,
                device_limit: v as u64,
                required_limit: 640,
            },
        ),
        v < 256 ==> limits_outcome(
            RendererProfile::GpuDriven,
            Limits { max_sampled_textures_per_shader_stage: v, ..required_limits(RendererProfile::GpuDriven) },
        ) == Err::<Limits, RendererInitializationError>(
            RendererInitializationError::LowDeviceLimit {
                ty: LimitType::SampledTexturesPerShaderStages,
                device_limit: v as u64,
                required_limit: 256,
            },
        ),
        v < 2 ==> limits_outcome(
            RendererProfile::GpuDriven,
            Limits { max_samplers_per_shader_stage: v, ..required_limits(RendererProfile::GpuDriven) },
        ) == Err::<Limits, RendererInitializationError>(
            RendererInitializationError::LowDeviceLimit {
                ty: LimitType::SamplersPerShaderStages,
                device_limit: v as u64,
                required_limit: 2,
            },
        ),
        v < 5 ==> limits_outcome(
            RendererProfile::GpuDriven,
            Limits { max_storage_buffers_per_shader_stage: v, ..required_limits(RendererProfile::GpuDriven) },
        ) == Err::<Limits, RendererInitializationError>(
            RendererInitializationError::LowDeviceLimit {
                ty: LimitType::StorageBuffersPerShaderStages,
                device_limit: v as u64,
                required_limit: 5,
            },
        ),
        v < 2 ==> limits_outcome(
            RendererProfile::GpuDriven,
            Limits { max_uniform_buffers_per_shader_stage: v, ..required_limits(RendererProfile::GpuDriven) },
        ) == Err::<Limits, RendererInitializationError>(
            RendererInitializationError::LowDeviceLimit {
                ty: LimitType::StorageTexturesPerShaderStages,
                device_limit: v as u64,
                required_limit: 2,
            },
        ),
        v < 1024 ==> limits_outcome(
            RendererProfile::GpuDriven,
            Limits { max_uniform_buffer_binding_size: v, ..required_limits(RendererProfile::GpuDriven) },
        ) == Err::<Limits, RendererInitializationError>(
            RendererInitializationError::LowDeviceLimit {
                ty: LimitType::UniformBufferBindingSize,
                device_limit: v as u64,
                required_limit: 1024,
            },
        ),
        v < 134_217_728 ==> limits_outcome(
            RendererProfile::GpuDriven,
            Limits { max_storage_buffer_binding_size: v, ..required_limits(RendererProfile::GpuDriven) },
        ) == Err::<Limits, RendererInitializationError>(
            RendererInitializationError::LowDeviceLimit {
                ty: LimitType::MaxStorageBufferBindingSize,
                device_limit: v as u64,
                required_limit: 134_217_728,
            },
        ),
        v < 7 ==> limits_outcome(
            RendererProfile::GpuDriven,
            Limits { max_vertex_buffers: v, ..required_limits(RendererProfile::GpuDriven) },
        ) == Err::<Limits, RendererInitializationError>(
            RendererInitializationError::LowDeviceLimit {
                ty: LimitType::MaxVertexBuffers,
                device_limit: v as u64,
                required_limit: 7,
            },
        ),
        v < 7 ==> limits_outcome(
            RendererProfile::GpuDriven,
            Limits { max_vertex_attributes: v, ..required_limits(RendererProfile::GpuDriven) },
        ) == Err::<Limits, RendererInitializationError>(
            RendererInitializationError::LowDeviceLimit {
                ty: LimitType::MaxVertexAttributes,
                device_limit: v as u64,
                required_limit: 7,
            },
        ),
        v < 128 ==> limits_outcome(
            RendererProfile::GpuDriven,
            Limits { max_vertex_buffer_array_stride: v, ..required_limits(RendererProfile::GpuDriven) },
        ) == Err::<Limits, RendererInitializationError>(
            RendererInitializationError::LowDeviceLimit {
                ty: LimitType::MaxVertexBufferArrayStride,
                device_limit: v as u64,
                required_limit: 128,
            },
        ),
        v < 128 ==> limits_outcome(
            RendererProfile::GpuDriven,
            Limits { max_push_constant_size: v, ..required_limits(RendererProfile::GpuDriven) },
        ) == Err::<Limits, RendererInitializationError>(
            RendererInitializationError::LowDeviceLimit {
                ty: LimitType::PushConstantSize,
                device_limit: v as u64,
                required_limit: 128,
            },
        ),
        v > 256 ==> limits_outcome(
            RendererProfile::GpuDriven,
            Limits { min_storage_buffer_offset_alignment: v, ..required_limits(RendererProfile::GpuDriven) },
        ) == Err::<Limits, RendererInitializationError>(
            RendererInitializationError::LowDeviceLimit {
                ty: LimitType::StorageBufferBindingAlignment,
                device_limit: v as u64,
                required_limit: 256,
            },
        ),
        v > 256 ==> limits_outcome(
            RendererProfile::GpuDriven,
            Limits { min_uniform_buffer_offset_alignment: v, ..required_limits(RendererProfile::GpuDriven) },
        ) == Err::<Limits, RendererInitializationError>(
            RendererInitializationError::LowDeviceLimit {
                ty: LimitType::UniformBufferBindingAlignment,
                device_limit: v as u64,
                required_limit: 256,
            },
        ),
        v < 60 ==> limits_outcome(
            RendererProfile::GpuDriven,
            Limits { max_inter_stage_shader_components: v, ..required_limits(RendererProfile::GpuDriven) },
        ) == Err::<Limits, RendererInitializationError>(
            RendererInitializationError::LowDeviceLimit {
                ty: LimitType::MaxInterStageShaderComponents,
                device_limit: v as u64,
                required_limit: 60,
            },
        ),
        v < 16352 ==> limits_outcome(
            RendererProfile::GpuDriven,
            Limits { max_compute_workgroup_storage_size: v, ..required_limits(RendererProfile::GpuDriven) },
        ) == Err::<Limits, RendererInitializationError>(
            RendererInitializationError::LowDeviceLimit {
                ty: LimitType::MaxComputeWorkgroupStorageSize,
                device_limit: v as u64,
                required_limit: 16352,
            },
        ),
        v < 256 ==> limits_outcome(
            RendererProfile::GpuDriven,
            Limits { max_compute_invocations_per_workgroup: v, ..required_limits(RendererProfile::GpuDriven) },
        ) == Err::<Limits, RendererInitializationError>(
            RendererInitializationError::LowDeviceLimit {
                ty: LimitType::MaxComputeInvocationsPerWorkgroup,
                device_limit: v as u64,
                required_limit: 256,
            },
        ),
        v < 256 ==> limits_outcome(
            RendererProfile::GpuDriven,
            Limits { max_compute_workgroup_size_x: v, ..required_limits(RendererProfile::GpuDriven) },
        ) == Err::<Limits, RendererInitializationError>(
            RendererInitializationError::LowDeviceLimit {
                ty: LimitType::MaxComputeWorkgroupSizeX,
                device_limit: v as u64,
                required_limit: 256,
            },
        ),
        v < 256 ==> limits_outcome(
            RendererProfile::GpuDriven,
            Limits { max_compute_workgroup_size_y: v, ..required_limits(RendererProfile::GpuDriven) },
        ) == Err::<Limits, RendererInitializationError>(
            RendererInitializationError::LowDeviceLimit {
                ty: LimitType::MaxComputeWorkgroupSizeY,
                device_limit: v as u64,
                required_limit: 256,
            },
        ),
        v < 64 ==> limits_outcome(
            RendererProfile::GpuDriven,
            Limits { max_compute_workgroup_size_z: v, ..required_limits(RendererProfile::GpuDriven) },
        ) == Err::<Limits, RendererInitializationError>(
            RendererInitializationError::LowDeviceLimit {
                ty: LimitType::MaxComputeWorkgroupSizeZ,
                device_limit: v as u64,
                required_limit: 64,
            },
        ),
        v < 65535 ==> limits_outcome(
            RendererProfile::GpuDriven,
            Limits { max_compute_workgroups_per_dimension: v, ..required_limits(RendererProfile::GpuDriven) },
        ) == Err::<Limits, RendererInitializationError>(
            RendererInitializationError::LowDeviceLimit {
                ty: LimitType::MaxComputeWorkgroupsPerDimension,
                device_limit: v as u64,
                required_limit: 65535,
            },
        ),
        v < 1_179_648 ==> limits_outcome(
            RendererProfile::GpuDriven,
            Limits { max_buffer_size: (v as u64), ..required_limits(RendererProfile::GpuDriven) },
        ) == Err::<Limits, RendererInitializationError>(
            RendererInitializationError::LowDeviceLimit {
                ty: LimitType::MaxBufferSize,
                device_limit: v as u64,
                required_limit: 1_179_648,
            },
        ),
        v < 32 ==> limits_outcome(
            RendererProfile::GpuDriven,
            Limits { max_color_attachment_bytes_per_sample: v, ..required_limits(RendererProfile::GpuDriven) },
        ) == Err::<Limits, RendererInitializationError>(
            RendererInitializationError::LowDeviceLimit {
                ty: LimitType::MaxColorAttachmentBytesPerSample,
                device_limit: v as u64,
                required_limit: 32,
            },
        ),
        v < 8 ==> limits_outcome(
            RendererProfile::GpuDriven,
            Limits { max_color_attachments: v, ..required_limits(RendererProfile::GpuDriven) },
        ) == Err::<Limits, RendererInitializationError>(
            RendererInitializationError::LowDeviceLimit {
                ty: LimitType::MaxColorAttachments,
                device_limit: v as u64,
                required_limit: 8,
            },
        ),
        v < 1024 ==> limits_outcome(
            RendererProfile::GpuDriven,
            Limits { max_binding_array_sampler_elements_per_shader_stage: v, ..required_limits(RendererProfile::GpuDriven) },
        ) == Err::<Limits, RendererInitializationError>(
            RendererInitializationError::LowDeviceLimit {
                ty: LimitType::MaxBindingArrayElements,
                device_limit: v as u64,
                required_limit: 1024,
            },
        ),
        v < 1024 ==> limits_outcome(
            RendererProfile::GpuDriven,
            Limits { max_binding_array_elements_per_shader_stage: v, ..required_limits(RendererProfile::GpuDriven) },
        ) == Err::<Limits, RendererInitializationError>(
            RendererInitializationError::LowDeviceLimit {
                ty: LimitType::MaxBindingArrayElements,
                device_limit: v as u64,
                required_limit: 1024,
            },
        ),
{
    low_max_texture_dimension_1d_reported(v);
    low_max_texture_dimension_2d_reported(v);
    low_max_texture_dimension_3d_reported(v);
    low_max_texture_array_layers_reported(v);
    low_max_bind_groups_reported(v);
    low_max_bindings_per_bind_group_reported(v);
    low_max_sampled_textures_per_shader_stage_reported(v);
    low_max_samplers_per_shader_stage_reported(v);
    low_max_storage_buffers_per_shader_stage_reported(v);
    low_max_uniform_buffers_per_shader_stage_reported(v);
    low_max_uniform_buffer_binding_size_reported(v);
    low_max_storage_buffer_binding_size_reported(v);
    low_max_vertex_buffers_reported(v);
    low_max_vertex_attributes_reported(v);
    low_max_vertex_buffer_array_stride_reported(v);
    low_max_push_constant_size_reported(v);
    low_min_storage_buffer_offset_alignment_reported(v);
    low_min_uniform_buffer_offset_alignment_reported(v);
    low_max_inter_stage_shader_components_reported(v);
    low_max_compute_workgroup_storage_size_reported(v);
    low_max_compute_invocations_per_workgroup_reported(v);
    low_max_compute_workgroup_size_x_reported(v);
    low_max_compute_workgroup_size_y_reported(v);
    low_max_compute_workgroup_size_z_reported(v);
    low_max_compute_workgroups_per_dimension_reported(v);
    low_max_buffer_size_reported(v);
    low_max_color_attachment_bytes_per_sample_reported(v);
    low_max_color_attachments_reported(v);
    low_max_binding_array_sampler_elements_per_shader_stage_reported(v);
    low_max_binding_array_elements_per_shader_stage_reported(v);
}

} // verus!
