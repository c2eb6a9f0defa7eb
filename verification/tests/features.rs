use rend3::error::{RendererInitializationError, RendererProfile};
use rend3::features::{
    check_features, cpu_driven_required_features, gpu_driven_required_features, optional_features,
    requested_device_features,
};
use wgpu::Features;

fn gpu_required() -> Features {
    Features::PUSH_CONSTANTS
        | Features::TEXTURE_COMPRESSION_BC
        | Features::DEPTH_CLIP_CONTROL
        | Features::TEXTURE_BINDING_ARRAY
        | Features::SAMPLED_TEXTURE_AND_STORAGE_BUFFER_ARRAY_NON_UNIFORM_INDEXING
        | Features::PARTIALLY_BOUND_BINDING_ARRAY
        | Features::MULTI_DRAW_INDIRECT_COUNT
}

fn optional() -> Features {
    Features::DEPTH_CLIP_CONTROL
        | Features::TEXTURE_COMPRESSION_BC
        | Features::TEXTURE_COMPRESSION_ETC2
        | Features::TEXTURE_COMPRESSION_ASTC
        | Features::TIMESTAMP_QUERY
        | Features::TIMESTAMP_QUERY_INSIDE_PASSES
}

#[test]
fn required_feature_sets_are_the_documented_flags() {
    assert_eq!(gpu_driven_required_features(), gpu_required());
    assert_eq!(cpu_driven_required_features(), Features::empty());
    assert_eq!(optional_features(), optional());
}

#[test]
fn cpu_driven_accepts_a_device_without_features() {
    assert_eq!(check_features(RendererProfile::CpuDriven, Features::empty()), Ok(Features::empty()));
}

#[test]
fn cpu_driven_takes_only_optional_features() {
    let device = Features::TIMESTAMP_QUERY | Features::PUSH_CONSTANTS | Features::SHADER_F16;
    assert_eq!(
        check_features(RendererProfile::CpuDriven, device),
        Ok(Features::TIMESTAMP_QUERY)
    );
}

#[test]
fn gpu_driven_reports_all_missing_features() {
    assert_eq!(
        check_features(RendererProfile::GpuDriven, Features::empty()),
        Err(RendererInitializationError::MissingDeviceFeatures { features: gpu_required() })
    );
    let device = gpu_required() - Features::PUSH_CONSTANTS - Features::MULTI_DRAW_INDIRECT_COUNT;
    assert_eq!(
        check_features(RendererProfile::GpuDriven, device),
        Err(RendererInitializationError::MissingDeviceFeatures {
            features: Features::PUSH_CONSTANTS | Features::MULTI_DRAW_INDIRECT_COUNT,
        })
    );
}

#[test]
fn gpu_driven_grants_required_and_offered_optional_features() {
    let device = gpu_required() | Features::TEXTURE_COMPRESSION_ASTC | Features::SHADER_F16;
    assert_eq!(
        check_features(RendererProfile::GpuDriven, device),
        Ok(gpu_required() | Features::TEXTURE_COMPRESSION_ASTC)
    );
    let everything = Features::all();
    assert_eq!(
        check_features(RendererProfile::GpuDriven, everything),
        Ok(gpu_required() | optional())
    );
}

#[test]
fn check_features_is_idempotent() {
    let device = gpu_required() | Features::TIMESTAMP_QUERY | Features::SHADER_F16;
    for profile in [RendererProfile::GpuDriven, RendererProfile::CpuDriven] {
        let granted = check_features(profile, device).unwrap();
        assert_eq!(check_features(profile, granted), Ok(granted));
        assert!(device.contains(granted));
    }
}

#[test]
fn gpu_features_imply_cpu_features() {
    let device = gpu_required();
    assert!(check_features(RendererProfile::GpuDriven, device).is_ok());
    assert!(check_features(RendererProfile::CpuDriven, device).is_ok());
}

#[test]
fn requested_features_add_the_extra_ones() {
    let granted = Features::PUSH_CONSTANTS;
    assert_eq!(requested_device_features(granted, None), Features::PUSH_CONSTANTS);
    assert_eq!(
        requested_device_features(granted, Some(Features::SHADER_F16)),
        Features::PUSH_CONSTANTS | Features::SHADER_F16
    );
}
