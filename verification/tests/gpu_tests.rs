use vortex_gpu_audio::gpu::{
    select_backend, CpuFallbackBackend, DynGpuBuffer, EqFilterType, GpuBackend, GpuBackendType,
    GpuBuffer, GpuCapabilities, GpuMemoryInfo, GpuProcessor,
};
use vortex_gpu_audio::error::{GpuError, VortexError};
use vortex_gpu_audio::ratio::Ratio;

type Cpu = CpuFallbackBackend<f32>;

#[test]
fn test_cpu_backend_initialization() {
    let backend = Cpu::initialize().unwrap();
    assert_eq!(backend.capabilities().backend_type, GpuBackendType::Cpu);
    assert!(backend.is_operational());
}

#[test]
fn test_gpu_processor_auto_detect() {
    let processor = GpuProcessor::<Cpu>::auto_detect();
    assert!(processor.is_ok());

    let processor = processor.unwrap();
    let caps = processor.capabilities();
    assert!(caps.compute_units > 0);
}

#[test]
fn test_gpu_processor_initialization() {
    let processor = GpuProcessor::<Cpu>::auto_detect().unwrap();

    let caps = processor.capabilities();
    assert!(caps.compute_units > 0);
    assert!(!caps.device_name.is_empty());
    assert!(caps.max_memory_mb > 0);
}

#[test]
fn test_cpu_fallback_backend() {
    let processor = GpuProcessor::<Cpu>::new(GpuBackendType::Cpu).unwrap();
    let backend = processor.backend();

    assert!(backend.is_operational());
    assert_eq!(processor.capabilities().backend_type, GpuBackendType::Cpu);
}

#[test]
fn test_buffer_allocation() {
    let backend = Cpu::initialize().unwrap();
    let buffer = backend.allocate_buffer(1024 * 4).unwrap();
    assert_eq!(buffer.size(), 1024 * 4);
    assert!(!buffer.is_device_memory());
}

#[test]
fn test_cpu_fallback_capabilities() {
    let backend = Cpu::initialize().unwrap();
    let caps = backend.capabilities();

    assert_eq!(caps.backend_type, GpuBackendType::Cpu);
    assert_eq!(caps.device_name, "CPU Fallback");
    assert!(caps.compute_units > 0);
    assert_eq!(caps.max_memory_mb, 1024);
    assert!(caps.supports_fp64);
    assert!(!caps.supports_async_transfer);
}

#[test]
fn test_cpu_backend_always_operational() {
    let backend = Cpu::initialize().unwrap();
    assert!(backend.is_operational());
}

#[test]
fn test_buffer_properties() {
    let backend = Cpu::initialize().unwrap();

    let sizes = vec![64, 1024, 4096, 1024 * 1024];
    for size in sizes {
        let buffer = backend.allocate_buffer(size).unwrap();
        assert_eq!(buffer.size(), size);
        assert_eq!(buffer.alignment(), 64);
        assert!(!buffer.is_device_memory());
    }
}

#[test]
fn test_memory_operations_no_op() {
    let backend = Cpu::initialize().unwrap();
    let mut buffer = backend.allocate_buffer(1024).unwrap();

    let data = vec![1.0f32; 256];
    assert!(backend.copy_to_device(&mut buffer, &data).is_ok());

    let mut output = vec![0.0f32; 256];
    assert!(backend.copy_from_device(&buffer, &mut output).is_ok());
    assert_eq!(output, data);
}

#[test]
fn test_memory_transfer_operations() {
    let backend = Cpu::initialize().unwrap();

    let test_data: Vec<f32> = (0..4800).map(|i| (i as f32 * 0.13).sin()).collect();
    let mut buffer = backend.allocate_buffer(test_data.len() * 4).unwrap();

    backend.copy_to_device(&mut buffer, &test_data).unwrap();

    let mut output = vec![0.0f32; test_data.len()];
    backend.copy_from_device(&buffer, &mut output).unwrap();
    assert_eq!(output, test_data);

    backend.free_buffer(buffer).unwrap();
}

#[test]
fn a_copy_overwrites_the_start_of_the_buffer_only() {
    let backend = CpuFallbackBackend::<i32>::initialize().unwrap();
    let mut buffer = backend.allocate_buffer(16).unwrap();
    backend.copy_to_device(&mut buffer, &[1, 2, 3, 4]).unwrap();
    backend.copy_to_device(&mut buffer, &[9, 8]).unwrap();
    let mut all = [0; 4];
    backend.copy_from_device(&buffer, &mut all).unwrap();
    assert_eq!(all, [9, 8, 3, 4]);
    let mut front = [0; 3];
    backend.copy_from_device(&buffer, &mut front).unwrap();
    assert_eq!(front, [9, 8, 3]);
}

#[test]
fn a_copy_that_does_not_fit_is_refused() {
    let backend = Cpu::initialize().unwrap();
    // 10 bytes have room for two samples of four bytes.
    let mut buffer = backend.allocate_buffer(10).unwrap();
    assert!(backend.copy_to_device(&mut buffer, &[1.0, 2.0]).is_ok());
    match backend.copy_to_device(&mut buffer, &[5.0, 6.0, 7.0]) {
        Err(VortexError::Gpu(GpuError::MemoryTransferFailed { .. })) => {}
        _ => panic!("copy accepted"),
    }
    let mut out = [0.0f32; 3];
    match backend.copy_from_device(&buffer, &mut out) {
        Err(VortexError::Gpu(GpuError::MemoryTransferFailed { .. })) => {}
        _ => panic!("copy accepted"),
    }
    assert_eq!(out, [0.0; 3]);
    let mut out = [0.0f32; 2];
    backend.copy_from_device(&buffer, &mut out).unwrap();
    assert_eq!(out, [1.0, 2.0]);
}

#[test]
fn test_synchronize_no_op() {
    let backend = Cpu::initialize().unwrap();
    assert!(backend.synchronize().is_ok());
}

#[test]
fn gpu_test_memory_usage_tracking() {
    let backend = Cpu::initialize().unwrap();
    let info = backend.memory_usage();

    assert_eq!(info.total_mb, 1024);
    assert_eq!(info.used_mb, 0);
    assert_eq!(info.available_mb, 1024);
    assert_eq!(info.usage_percentage.numerator as f32 / info.usage_percentage.denominator as f32, 0.0);
}

#[test]
fn test_gpu_processor_creation_cpu_fallback() {
    let processor = GpuProcessor::<Cpu>::new(GpuBackendType::Cpu).unwrap();
    assert_eq!(processor.capabilities().backend_type, GpuBackendType::Cpu);
}

#[test]
fn a_backend_that_is_not_there_is_served_by_the_cpu() {
    for kind in [GpuBackendType::Cuda, GpuBackendType::Vulkan, GpuBackendType::OpenCL] {
        let processor = GpuProcessor::<Cpu>::new(kind).unwrap();
        assert_eq!(processor.capabilities().backend_type, GpuBackendType::Cpu);
        assert_eq!(processor.capabilities().device_name, "CPU Fallback");
    }
}

#[test]
fn backends_are_probed_in_their_order() {
    assert_eq!(select_backend(true, true, true), GpuBackendType::Cuda);
    assert_eq!(select_backend(true, false, false), GpuBackendType::Cuda);
    assert_eq!(select_backend(false, true, true), GpuBackendType::Vulkan);
    assert_eq!(select_backend(false, false, true), GpuBackendType::OpenCL);
    assert_eq!(select_backend(false, false, false), GpuBackendType::Cpu);
}

#[test]
fn test_gpu_backend_type_equality() {
    assert_eq!(GpuBackendType::Cpu, GpuBackendType::Cpu);
    assert_ne!(GpuBackendType::Cpu, GpuBackendType::Cuda);
    assert_ne!(GpuBackendType::Cuda, GpuBackendType::OpenCL);
}

#[test]
fn test_eq_filter_types() {
    let types = vec![
        EqFilterType::Peak,
        EqFilterType::LowShelf,
        EqFilterType::HighShelf,
        EqFilterType::LowPass,
        EqFilterType::HighPass,
    ];
    for filter_type in types {
        let cloned = filter_type.clone();
        assert_eq!(cloned, filter_type);
    }
}

#[test]
fn test_gpu_capabilities_clone() {
    let caps = GpuCapabilities {
        backend_type: GpuBackendType::Cpu,
        device_name: "Test".to_string(),
        compute_units: 8,
        max_memory_mb: 2048,
        supports_fp64: true,
        supports_async_transfer: false,
    };

    let cloned = caps.clone();
    assert_eq!(caps.backend_type, cloned.backend_type);
    assert_eq!(caps.device_name, cloned.device_name);
    assert_eq!(caps.compute_units, cloned.compute_units);
    assert_eq!(caps.max_memory_mb, cloned.max_memory_mb);
    assert_eq!(caps.supports_fp64, cloned.supports_fp64);
    assert_eq!(caps.supports_async_transfer, cloned.supports_async_transfer);
}

#[test]
fn test_gpu_memory_info_structure() {
    let info = GpuMemoryInfo {
        total_mb: 8192,
        used_mb: 2048,
        available_mb: 6144,
        usage_percentage: Ratio { numerator: 2048 * 100, denominator: 8192 },
    };

    assert_eq!(info.total_mb, 8192);
    assert_eq!(info.used_mb, 2048);
    assert_eq!(info.available_mb, 6144);
    assert_eq!(info.usage_percentage.floor(), 25);
}

#[test]
fn test_buffer_free_operation() {
    let backend = Cpu::initialize().unwrap();
    let buffer = backend.allocate_buffer(1024).unwrap();

    assert!(backend.free_buffer(buffer).is_ok());
}

#[test]
fn test_buffer_allocation_and_free() {
    let processor = GpuProcessor::<Cpu>::auto_detect().unwrap();
    let backend = processor.backend();

    let sizes = vec![1024, 4096, 16384, 65536];

    for size in sizes {
        let buffer = backend.allocate_buffer(size).unwrap();
        assert_eq!(buffer.size(), size);
        backend.free_buffer(buffer).unwrap();
    }
}

#[test]
fn test_multiple_buffer_allocations() {
    let backend = Cpu::initialize().unwrap();

    let buffer1 = backend.allocate_buffer(1024).unwrap();
    let buffer2 = backend.allocate_buffer(2048).unwrap();
    let buffer3 = backend.allocate_buffer(512).unwrap();

    assert_eq!(buffer1.size(), 1024);
    assert_eq!(buffer2.size(), 2048);
    assert_eq!(buffer3.size(), 512);
}

#[test]
fn test_multiple_buffers_concurrent() {
    let processor = GpuProcessor::<Cpu>::auto_detect().unwrap();
    let backend = processor.backend();

    let buffer1 = backend.allocate_buffer(4096).unwrap();
    let buffer2 = backend.allocate_buffer(8192).unwrap();
    let buffer3 = backend.allocate_buffer(16384).unwrap();

    assert_eq!(buffer1.size(), 4096);
    assert_eq!(buffer2.size(), 8192);
    assert_eq!(buffer3.size(), 16384);

    backend.free_buffer(buffer2).unwrap();
    backend.free_buffer(buffer1).unwrap();
    backend.free_buffer(buffer3).unwrap();
}

#[test]
fn test_synchronization() {
    let processor = GpuProcessor::<Cpu>::auto_detect().unwrap();
    processor.backend().synchronize().unwrap();
}

#[test]
fn gpu_processing_tests_test_memory_usage_tracking() {
    let processor = GpuProcessor::<Cpu>::auto_detect().unwrap();
    let memory_info = processor.backend().memory_usage();

    assert!(memory_info.total_mb > 0);
    assert!(memory_info.available_mb <= memory_info.total_mb);
    let usage = memory_info.usage_percentage.numerator as f32
        / memory_info.usage_percentage.denominator as f32;
    assert!(usage >= 0.0 && usage <= 100.0);
}

#[test]
fn test_auto_detect_fallback_logic() {
    let processor = GpuProcessor::<Cpu>::auto_detect().unwrap();
    let backend_type = processor.capabilities().backend_type;
    assert!(backend_type == GpuBackendType::Cpu);
}

#[test]
fn test_cpu_compute_units_matches_cores() {
    let backend = Cpu::initialize().unwrap();
    let caps = backend.capabilities();
    let cpu_count = num_cpus::get() as u32;

    assert_eq!(caps.compute_units, cpu_count);
}

#[test]
fn test_dyn_gpu_buffer_creation() {
    let buffer = DynGpuBuffer::<f32>::new(2048, 64, false);

    assert_eq!(buffer.size(), 2048);
    assert_eq!(buffer.alignment(), 64);
    assert!(!buffer.is_device_memory());
}

#[test]
fn test_gpu_processor_capabilities_access() {
    let processor = GpuProcessor::<Cpu>::auto_detect().unwrap();
    let caps = processor.capabilities();

    assert!(!caps.device_name.is_empty());
    assert!(caps.compute_units > 0);
    assert!(caps.max_memory_mb > 0);
}

#[test]
fn samples_of_no_size_bring_no_backend_up() {
    match CpuFallbackBackend::<()>::initialize() {
        Err(VortexError::Gpu(GpuError::InitializationFailed { .. })) => {}
        _ => panic!("backend came up"),
    }
}

#[test]
fn a_processor_keeps_what_its_backend_reports() {
    let backend = Cpu::initialize().unwrap();
    let units = backend.capabilities().compute_units;
    let processor = GpuProcessor::with_backend(backend);
    assert_eq!(processor.capabilities().compute_units, units);
    assert_eq!(processor.capabilities().device_name, processor.backend().capabilities().device_name);
}

#[test]
fn compute_units_follow_the_cores() {
    assert_eq!(Cpu::with_cores(1).unwrap().capabilities().compute_units, 1);
    assert_eq!(Cpu::with_cores(12).unwrap().capabilities().compute_units, 12);
    if usize::MAX as u128 > u32::MAX as u128 {
        let many = u32::MAX as usize + 7;
        assert_eq!(Cpu::with_cores(many).unwrap().capabilities().compute_units, u32::MAX);
    }
    match Cpu::with_cores(0) {
        Err(VortexError::Gpu(GpuError::InitializationFailed { .. })) => {}
        _ => panic!("backend came up"),
    }
    let backend = Cpu::with_cores(3).unwrap();
    assert_eq!(backend.capabilities().device_name, "CPU Fallback");
    assert_eq!(backend.capabilities().max_memory_mb, 1024);
}
