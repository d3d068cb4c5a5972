use werk1112::api::router::{routes, Handler, RouteMethod};
use werk1112::inference::planner::RuntimeAccelerator;
use werk1112::inference_service::resources::{
    accelerator_env_is_enabled, accelerator_name, available_memory, detect_host_resources,
    detected_accelerator, AcceleratorSigns,
};

fn no_signs() -> AcceleratorSigns {
    AcceleratorSigns {
        set: None,
        macos: false,
        nvidia_device: false,
        cuda_devices: None,
        amd_device: false,
        rocm_devices: None,
    }
}

#[test]
fn memory_is_read_from_the_kernels_report() {
    let report = "MemTotal:       100 kB\nMemAvailable:    42 kB\nMemAvailable:    1 kB\n";
    assert_eq!(available_memory(report), Some(43_008));
    assert_eq!(available_memory("MemAvailable: x kB"), None);
    assert_eq!(available_memory("MemAvailable:"), None);
    assert_eq!(available_memory("MemFree: 5 kB"), None);
    assert_eq!(available_memory("MemAvailable: 18446744073709551615 kB"), Some(u64::MAX));
}

#[test]
fn accelerator_follows_settings_then_system_then_devices() {
    let mut signs = no_signs();
    assert_eq!(detected_accelerator(&signs), RuntimeAccelerator::Cpu);
    signs.rocm_devices = Some("0".to_string());
    assert_eq!(detected_accelerator(&signs), RuntimeAccelerator::Rocm);
    signs.cuda_devices = Some(" 0,1 ".to_string());
    assert_eq!(detected_accelerator(&signs), RuntimeAccelerator::Cuda);
    signs.cuda_devices = Some("-1".to_string());
    assert_eq!(detected_accelerator(&signs), RuntimeAccelerator::Rocm);
    signs.nvidia_device = true;
    assert_eq!(detected_accelerator(&signs), RuntimeAccelerator::Cuda);
    signs.macos = true;
    assert_eq!(detected_accelerator(&signs), RuntimeAccelerator::Mps);
    signs.set = Some("  ".to_string());
    assert_eq!(detected_accelerator(&signs), RuntimeAccelerator::Mps);
    for (name, accelerator) in [
        ("CUDA", RuntimeAccelerator::Cuda),
        ("hip", RuntimeAccelerator::Rocm),
        ("metal", RuntimeAccelerator::Mps),
        ("mlx", RuntimeAccelerator::Mlx),
        ("Cpu", RuntimeAccelerator::Cpu),
        (" cuda", RuntimeAccelerator::Other),
    ] {
        signs.set = Some(name.to_string());
        assert_eq!(detected_accelerator(&signs), accelerator);
    }
}

#[test]
fn set_accelerators_are_detected_by_their_names() {
    for accelerator in [
        RuntimeAccelerator::Cpu,
        RuntimeAccelerator::Cuda,
        RuntimeAccelerator::Rocm,
        RuntimeAccelerator::Mps,
        RuntimeAccelerator::Mlx,
        RuntimeAccelerator::Other,
    ] {
        let mut signs = no_signs();
        signs.set = Some(accelerator_name(accelerator).to_string());
        assert_eq!(detected_accelerator(&signs), accelerator);
        assert_eq!(
            accelerator_name(accelerator),
            format!("{accelerator:?}").to_ascii_lowercase()
        );
    }
}

#[test]
fn device_lists_can_be_switched_off() {
    for value in ["", "  ", "-1", "None", "DISABLED", " void "] {
        assert!(!accelerator_env_is_enabled(Some(value)));
    }
    assert!(accelerator_env_is_enabled(Some("0")));
    assert!(!accelerator_env_is_enabled(None));
}

#[test]
fn resources_are_put_together() {
    let resources =
        detect_host_resources(Some("MemAvailable: 1 kB"), Some("2048"), &no_signs());
    assert_eq!(resources.host_memory_bytes, Some(1024));
    assert_eq!(resources.accelerator_memory_bytes, Some(2048));
    assert_eq!(resources.accelerator.as_deref(), Some("cpu"));
    let unknown = detect_host_resources(None, Some("lots"), &no_signs());
    assert_eq!(unknown.host_memory_bytes, None);
    assert_eq!(unknown.accelerator_memory_bytes, None);
}

#[test]
fn routes_do_not_clash() {
    let all = routes();
    assert_eq!(all.len(), 14);
    for (i, first) in all.iter().enumerate() {
        assert!(first.path.starts_with("/v1/"));
        for second in &all[i + 1..] {
            assert!(first.path != second.path || first.method != second.method);
            assert_ne!(first.handler, second.handler);
        }
    }
    assert_eq!(all[0].path, "/v1/models");
    assert_eq!(all[0].method, RouteMethod::Get);
    let cancel = all.iter().find(|route| route.handler == Handler::CancelJob).unwrap();
    assert_eq!((cancel.path, cancel.method), ("/v1/jobs/{id}", RouteMethod::Delete));
}
