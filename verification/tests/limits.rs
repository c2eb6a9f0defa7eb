use rend3::error::{LimitType, RendererInitializationError, RendererProfile};
use rend3::limits::{
    check_limit_low, check_limit_unlimited, check_limits, cpu_required_limits, gpu_required_limits,
    Limits,
};

fn low(ty: LimitType, device_limit: u64, required_limit: u64) -> RendererInitializationError {
    RendererInitializationError::LowDeviceLimit { ty, device_limit, required_limit }
}

#[test]
fn check_limit_unlimited_needs_at_least_the_requirement() {
    assert_eq!(check_limit_unlimited(5, 6, LimitType::BindGroups), Err(low(LimitType::BindGroups, 5, 6)));
    assert_eq!(check_limit_unlimited(6, 6, LimitType::BindGroups), Ok(6));
    assert_eq!(check_limit_unlimited(9, 6, LimitType::BindGroups), Ok(9));
}

#[test]
fn check_limit_low_needs_at_most_the_requirement() {
    let ty = LimitType::UniformBufferBindingAlignment;
    assert_eq!(check_limit_low(512, 256, ty), Err(low(ty, 512, 256)));
    assert_eq!(check_limit_low(256, 256, ty), Ok(256));
    assert_eq!(check_limit_low(64, 256, ty), Ok(64));
}

#[test]
fn required_limits_values() {
    let gpu = gpu_required_limits();
    let cpu = cpu_required_limits();
    assert_eq!(gpu.max_bind_groups, 6);
    assert_eq!(cpu.max_bind_groups, 4);
    assert_eq!(gpu.max_sampled_textures_per_shader_stage, 256);
    assert_eq!(cpu.max_sampled_textures_per_shader_stage, 10);
    assert_eq!(gpu.max_uniform_buffer_binding_size, 1024);
    assert_eq!(gpu.max_storage_buffer_binding_size, 128 << 20);
    assert_eq!(gpu.max_buffer_size, 8192 * 8 * 18);
    assert_eq!(cpu.max_buffer_size, 8192 * 8 * 8);
    assert_eq!(gpu.max_push_constant_size, 128);
    assert_eq!(cpu.max_push_constant_size, 0);
    assert_eq!(gpu.max_binding_array_elements_per_shader_stage, 1024);
    assert_eq!(cpu.max_binding_array_elements_per_shader_stage, 0);
    assert_eq!(gpu.max_non_sampler_bindings, 1_000_000);
}

#[test]
fn exact_requirements_pass_and_fix_non_sampler_bindings() {
    let device = Limits { max_non_sampler_bindings: 7, ..gpu_required_limits() };
    let granted = check_limits(RendererProfile::GpuDriven, &device).unwrap();
    assert_eq!(granted, Limits { max_non_sampler_bindings: 1_000_000, ..device });
}

#[test]
fn too_few_bind_groups_fails_the_gpu_profile_only() {
    let device = Limits { max_bind_groups: 5, ..gpu_required_limits() };
    assert_eq!(
        check_limits(RendererProfile::GpuDriven, &device),
        Err(low(LimitType::BindGroups, 5, 6))
    );
    assert!(check_limits(RendererProfile::CpuDriven, &device).is_ok());
}

#[test]
fn the_first_failing_limit_is_reported() {
    let device = Limits {
        max_texture_dimension_3d: 100,
        max_buffer_size: 10,
        ..gpu_required_limits()
    };
    assert_eq!(
        check_limits(RendererProfile::GpuDriven, &device),
        Err(low(LimitType::MaxTextureDimension3d, 100, 512))
    );
    let device = Limits {
        min_uniform_buffer_offset_alignment: 512,
        min_storage_buffer_offset_alignment: 1024,
        ..gpu_required_limits()
    };
    assert_eq!(
        check_limits(RendererProfile::CpuDriven, &device),
        Err(low(LimitType::StorageBufferBindingAlignment, 1024, 256))
    );
}

#[test]
fn uniform_buffers_are_reported_as_storage_textures() {
    let device = Limits { max_uniform_buffers_per_shader_stage: 1, ..gpu_required_limits() };
    assert_eq!(
        check_limits(RendererProfile::CpuDriven, &device),
        Err(low(LimitType::StorageTexturesPerShaderStages, 1, 2))
    );
}

#[test]
fn low_buffer_size_is_reported_with_its_u64_value() {
    let device = Limits { max_buffer_size: 1 << 40, ..cpu_required_limits() };
    assert!(check_limits(RendererProfile::CpuDriven, &device).is_ok());
    let device = Limits { max_buffer_size: 100, ..cpu_required_limits() };
    assert_eq!(
        check_limits(RendererProfile::CpuDriven, &device),
        Err(low(LimitType::MaxBufferSize, 100, 8192 * 8 * 8))
    );
}

#[test]
fn check_limits_is_idempotent() {
    let device = Limits { max_bind_groups: 8, max_non_sampler_bindings: 3, ..gpu_required_limits() };
    for profile in [RendererProfile::GpuDriven, RendererProfile::CpuDriven] {
        let granted = check_limits(profile, &device).unwrap();
        assert_eq!(check_limits(profile, &granted), Ok(granted));
    }
}

#[test]
fn gpu_limits_imply_cpu_limits() {
    let device = gpu_required_limits();
    assert!(check_limits(RendererProfile::GpuDriven, &device).is_ok());
    assert!(check_limits(RendererProfile::CpuDriven, &device).is_ok());
    let device = cpu_required_limits();
    assert!(check_limits(RendererProfile::CpuDriven, &device).is_ok());
    assert_eq!(
        check_limits(RendererProfile::GpuDriven, &device),
        Err(low(LimitType::BindGroups, 4, 6))
    );
}
