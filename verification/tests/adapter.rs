use rend3::adapter::{
    adapter_is_desired, choose_adapter, default_backend_order, device_type_rank, str_contains,
    AdapterInfo, Backend, DeviceType, ExtendedAdapterInfo, PotentialAdapter, Vendor,
};
use rend3::error::{LimitType, RendererInitializationError, RendererProfile};
use rend3::features::{check_features, gpu_driven_required_features};
use rend3::limits::{cpu_required_limits, gpu_required_limits, Limits};
use wgpu::Features;

fn info(name: &str, vendor: u32) -> AdapterInfo {
    AdapterInfo {
        name: name.to_string(),
        vendor,
        device: 0x2684,
        device_type: DeviceType::DiscreteGpu,
        backend: Backend::Vulkan,
    }
}

#[test]
fn vendor_ids_are_named() {
    let cases = [
        (0x1002, Vendor::Amd),
        (0x10DE, Vendor::Nv),
        (0x13B5, Vendor::Arm),
        (0x1414, Vendor::Microsoft),
        (0x14E4, Vendor::Broadcom),
        (0x5143, Vendor::Qualcomm),
        (0x8086, Vendor::Intel),
        (0x1234, Vendor::Unknown(0x1234)),
    ];
    for (id, vendor) in cases {
        let ext = ExtendedAdapterInfo::from(info("gpu", id));
        assert_eq!(ext.vendor, vendor);
        assert_eq!(ext.device, 0x2684);
        assert_eq!(ext.name, "gpu");
        assert_eq!(ext.device_type, DeviceType::DiscreteGpu);
        assert_eq!(ext.backend, Backend::Vulkan);
    }
}

#[test]
fn capable_adapter_runs_gpu_driven() {
    let features = gpu_driven_required_features() | Features::TIMESTAMP_QUERY;
    let p = PotentialAdapter::new(7u32, info("big", 0x10DE), gpu_required_limits(), features, None)
        .unwrap();
    assert_eq!(p.inner, 7);
    assert_eq!(p.profile, RendererProfile::GpuDriven);
    assert_eq!(p.features, gpu_driven_required_features() | Features::TIMESTAMP_QUERY);
    assert_eq!(p.limits, gpu_required_limits());
    assert_eq!(p.info.vendor, Vendor::Nv);
}

#[test]
fn capable_adapter_runs_cpu_driven_when_asked() {
    let features = gpu_driven_required_features() | Features::TIMESTAMP_QUERY;
    let p = PotentialAdapter::new((), info("big", 0x10DE), gpu_required_limits(), features, Some(RendererProfile::CpuDriven))
        .unwrap();
    assert_eq!(p.profile, RendererProfile::CpuDriven);
    assert_eq!(
        p.features,
        Features::TIMESTAMP_QUERY | Features::DEPTH_CLIP_CONTROL | Features::TEXTURE_COMPRESSION_BC
    );
}

#[test]
fn weak_adapter_falls_back_to_cpu_driven() {
    let p = PotentialAdapter::new((), info("small", 0x8086), cpu_required_limits(), Features::empty(), None)
        .unwrap();
    assert_eq!(p.profile, RendererProfile::CpuDriven);
    assert_eq!(p.features, Features::empty());
    assert_eq!(p.limits, cpu_required_limits());
}

#[test]
fn weak_adapter_fails_when_gpu_driven_is_asked() {
    let r = PotentialAdapter::new((), info("small", 0x8086), cpu_required_limits(), Features::empty(), Some(RendererProfile::GpuDriven));
    assert_eq!(
        r.err(),
        Some(RendererInitializationError::MissingDeviceFeatures { features: gpu_driven_required_features() })
    );
    let r = PotentialAdapter::new((), info("small", 0x8086), cpu_required_limits(), gpu_driven_required_features(), Some(RendererProfile::GpuDriven));
    assert_eq!(
        r.err(),
        Some(RendererInitializationError::LowDeviceLimit { ty: LimitType::BindGroups, device_limit: 4, required_limit: 6 })
    );
}

#[test]
fn adapter_below_cpu_driven_is_refused() {
    let limits = Limits { max_vertex_buffers: 2, ..cpu_required_limits() };
    let r = PotentialAdapter::new((), info("tiny", 0x8086), limits, Features::empty(), None);
    assert_eq!(
        r.err(),
        Some(RendererInitializationError::LowDeviceLimit { ty: LimitType::MaxVertexBuffers, device_limit: 2, required_limit: 6 })
    );
}

#[test]
fn no_preference_accepts_exactly_cpu_capable_adapters() {
    let devices = [
        (gpu_required_limits(), gpu_driven_required_features()),
        (cpu_required_limits(), gpu_driven_required_features()),
        (cpu_required_limits(), Features::empty()),
        (Limits { max_texture_dimension_2d: 16, ..gpu_required_limits() }, gpu_driven_required_features()),
    ];
    for (limits, features) in devices {
        let cpu_ok = check_features(RendererProfile::CpuDriven, features).is_ok()
            && rend3::limits::check_limits(RendererProfile::CpuDriven, &limits).is_ok();
        let r = PotentialAdapter::new((), info("x", 1), limits, features, None);
        assert_eq!(r.is_ok(), cpu_ok);
    }
}

#[test]
fn desired_device_name_is_matched_case_insensitively_on_the_adapter() {
    let p = PotentialAdapter::new((), info("NVIDIA GeForce RTX 4090", 0x10DE), cpu_required_limits(), Features::empty(), None);
    assert!(adapter_is_desired(&p, &None));
    assert!(adapter_is_desired(&p, &Some("geforce rtx".to_string())));
    assert!(adapter_is_desired(&p, &Some(String::new())));
    assert!(!adapter_is_desired(&p, &Some("GeForce".to_string())));
    assert!(!adapter_is_desired(&p, &Some("radeon".to_string())));
    let failed: Result<PotentialAdapter<()>, RendererInitializationError> = Err(RendererInitializationError::MissingAdapter);
    assert!(adapter_is_desired(&failed, &None));
    assert!(!adapter_is_desired(&failed, &Some("nvidia".to_string())));
}

#[test]
fn substring_search() {
    assert!(str_contains("abcabd", "abd"));
    assert!(str_contains("abc", ""));
    assert!(str_contains("", ""));
    assert!(!str_contains("", "a"));
    assert!(!str_contains("ab", "abc"));
    assert!(str_contains("größe", "öß"));
    assert!(!str_contains("abcab", "ba"));
}

#[test]
fn device_types_are_ranked() {
    assert_eq!(device_type_rank(DeviceType::DiscreteGpu), 0);
    assert_eq!(device_type_rank(DeviceType::IntegratedGpu), 1);
    assert_eq!(device_type_rank(DeviceType::VirtualGpu), 2);
    assert_eq!(device_type_rank(DeviceType::Cpu), 3);
    assert_eq!(device_type_rank(DeviceType::Other), 4);
}

#[test]
fn backends_are_tried_in_order() {
    assert_eq!(default_backend_order(), vec![Backend::Vulkan, Backend::Metal, Backend::Dx12, Backend::Gl]);
}

#[test]
fn the_best_adapter_of_the_first_backend_is_chosen() {
    let order = default_backend_order();
    let found = vec![
        vec![],
        vec![DeviceType::Cpu, DeviceType::IntegratedGpu, DeviceType::Other, DeviceType::IntegratedGpu],
        vec![DeviceType::DiscreteGpu],
    ];
    assert_eq!(choose_adapter(&order, None, &found), Some((1, 1)));
    assert_eq!(choose_adapter(&order, Some(Backend::Dx12), &found), Some((2, 0)));
    assert_eq!(choose_adapter(&order, Some(Backend::Vulkan), &found), None);
    assert_eq!(choose_adapter(&order, Some(Backend::Gl), &found), None);
    assert_eq!(choose_adapter(&order, None, &vec![]), None);
}
