use wgpu_sandbox::event::{clamp_dimension, PhysicalSize, Window};
use wgpu_sandbox::examples::{mandelbrot, triangle};
use wgpu_sandbox::gpu::context::{
    setup_bind_group, setup_device, setup_pipeline, Acquisition, BindGroup, BindGroupLayout,
    BufferDescriptor, Color, Frame, GpuContext, GpuShaderConfig, Recovery, RenderPass,
    RenderPipeline, SurfaceConfiguration, BIND_GROUP_INDEX, UNIFORM_BINDING,
};
use wgpu_sandbox::gpu::instance::{
    DeviceDescriptor, GpuInstance, Limits, PowerPreference, RequestAdapterOptions,
    SurfaceCapabilities,
};

fn window_of(width: u32, height: u32) -> Window {
    Window { id: 11, inner_size: PhysicalSize { width, height } }
}

fn shader() -> GpuShaderConfig<'static> {
    GpuShaderConfig { src: "source", vertex_entry: "vertex", fragment_entry: "fragment" }
}

fn context_of(width: u32, height: u32) -> GpuContext {
    let capabilities = SurfaceCapabilities { formats: vec![5, 6, 7] };
    let instance = GpuInstance::new(&window_of(width, height), capabilities);
    GpuContext::new::<mandelbrot::AppState>(instance, shader())
}

#[test]
fn a_dimension_is_at_least_one() {
    assert_eq!(clamp_dimension(0), 1);
    assert_eq!(clamp_dimension(1), 1);
    assert_eq!(clamp_dimension(2), 2);
    assert_eq!(clamp_dimension(u32::MAX), u32::MAX);
    let size = PhysicalSize { width: 0, height: 9 }.clamp();
    assert_eq!(size, PhysicalSize { width: 1, height: 9 });
}

#[test]
fn a_surface_configuration_has_no_zero_dimension() {
    let config = SurfaceConfiguration::new(PhysicalSize { width: 0, height: 0 });
    assert_eq!(config, SurfaceConfiguration { width: 1, height: 1 });
    let config = SurfaceConfiguration::new(PhysicalSize { width: 300, height: 0 });
    assert_eq!(config, SurfaceConfiguration { width: 300, height: 1 });
    let config = SurfaceConfiguration::new(PhysicalSize { width: 301, height: 300 });
    assert_eq!(config, SurfaceConfiguration { width: 301, height: 300 });
}

#[test]
fn the_adapter_is_asked_for_with_low_power() {
    assert_eq!(
        GpuInstance::adapter_options(),
        RequestAdapterOptions {
            power_preference: PowerPreference::LowPower,
            compatible_with_surface: true,
            force_fallback_adapter: false,
        }
    );
}

#[test]
fn the_device_is_asked_for_with_the_baseline_profile() {
    assert_eq!(
        setup_device(),
        DeviceDescriptor { optional_features: false, required_limits: Limits::DownlevelWebgl2 }
    );
}

#[test]
fn the_instance_configures_the_surface_to_the_size_of_the_window() {
    let capabilities = SurfaceCapabilities { formats: vec![3] };
    let instance = GpuInstance::new(&window_of(300, 200), capabilities.clone());
    assert_eq!(instance.surface_config, SurfaceConfiguration { width: 300, height: 200 });
    assert_eq!(instance.capabilities, capabilities);
    let instance = GpuInstance::new(&window_of(0, 0), capabilities);
    assert_eq!(instance.surface_config, SurfaceConfiguration { width: 1, height: 1 });
}

#[test]
fn the_bind_group_and_its_layout_name_slot_zero() {
    let buffer =
        BufferDescriptor { size: 48, uniform: true, copy_dst: true, mapped_at_creation: false };
    let (bind_group, layout) = setup_bind_group(&buffer);
    assert_eq!(bind_group, BindGroup { binding: 0, offset: 0, size: 48 });
    assert_eq!(
        layout,
        BindGroupLayout {
            binding: 0,
            visible_to_vertex: true,
            visible_to_fragment: true,
            has_dynamic_offset: false,
        }
    );
    assert_eq!(bind_group.binding, layout.binding);
    assert_eq!(UNIFORM_BINDING, 0);
    assert_eq!(BIND_GROUP_INDEX, 0);
}

#[test]
fn the_pipeline_targets_the_first_format() {
    let (_, layout) = setup_bind_group(&BufferDescriptor {
        size: 16,
        uniform: true,
        copy_dst: true,
        mapped_at_creation: false,
    });
    let capabilities = SurfaceCapabilities { formats: vec![23, 17, 4] };
    let pipeline = setup_pipeline(&layout, ("vs", "fs"), &capabilities);
    assert_eq!(
        pipeline,
        RenderPipeline {
            bind_group_layout: layout,
            vertex_entry: "vs",
            fragment_entry: "fs",
            vertex_buffers: 0,
            target_format: 23,
            depth_stencil: false,
        }
    );
}

#[test]
fn the_context_holds_one_record_of_the_state() {
    let gpu = context_of(640, 480);
    assert_eq!(
        gpu.uniform_buffer,
        BufferDescriptor { size: 16, uniform: true, copy_dst: true, mapped_at_creation: false }
    );
    assert_eq!(gpu.bind_group, BindGroup { binding: 0, offset: 0, size: 16 });
    assert_eq!(gpu.pipeline.bind_group_layout.binding, 0);
    assert_eq!(gpu.pipeline.vertex_entry, "vertex");
    assert_eq!(gpu.pipeline.fragment_entry, "fragment");
    assert_eq!(gpu.pipeline.target_format, 5);
    assert_eq!(gpu.pipeline.vertex_buffers, 0);
    assert!(!gpu.pipeline.depth_stencil);
    assert_eq!(gpu.shader_source, "source");
    assert_eq!(gpu.surface_config, SurfaceConfiguration { width: 640, height: 480 });

    let capabilities = SurfaceCapabilities { formats: vec![8] };
    let instance = GpuInstance::new(&window_of(1, 1), capabilities);
    let gpu = GpuContext::new::<triangle::AppState>(instance, shader());
    assert_eq!(gpu.uniform_buffer.size, 16);
}

#[test]
fn resize_to_nothing_gives_one_by_one() {
    let mut gpu = context_of(640, 480);
    let before = gpu;
    gpu.resize(PhysicalSize { width: 0, height: 0 });
    assert_eq!(gpu.surface_config, SurfaceConfiguration { width: 1, height: 1 });
    assert_eq!(gpu, GpuContext { surface_config: gpu.surface_config, ..before });
}

#[test]
fn resize_takes_the_new_size() {
    let mut gpu = context_of(640, 480);
    gpu.resize(PhysicalSize { width: 300, height: 300 });
    assert_eq!(gpu.surface_config, SurfaceConfiguration { width: 300, height: 300 });
    gpu.resize(PhysicalSize { width: 0, height: 77 });
    assert_eq!(gpu.surface_config, SurfaceConfiguration { width: 1, height: 77 });
    gpu.resize(PhysicalSize { width: u32::MAX, height: 0 });
    assert_eq!(gpu.surface_config, SurfaceConfiguration { width: u32::MAX, height: 1 });
}

#[test]
fn render_records_the_fixed_pass() {
    let gpu = context_of(300, 200);
    let bytes: Vec<u8> = (1..=16).collect();
    let frame = gpu.render(&bytes);
    assert_eq!(
        frame,
        Frame {
            surface: SurfaceConfiguration { width: 300, height: 200 },
            uniform_data: bytes,
            pass: RenderPass {
                uniform_offset: 0,
                clear_color: Color {
                    r: 0.0f64.to_bits(),
                    g: 0.0f64.to_bits(),
                    b: 0.0f64.to_bits(),
                    a: 1.0f64.to_bits(),
                },
                store: true,
                depth_stencil: false,
                bind_group_index: 0,
                first_vertex: 0,
                vertex_count: 3,
                first_instance: 0,
                instance_count: 1,
            },
        }
    );
}

#[test]
fn the_first_failed_acquisition_configures_the_surface_anew() {
    let mut gpu = context_of(640, 480);
    let before = gpu;
    let recovery = gpu.recover(Acquisition::First, &window_of(800, 0));
    let config = SurfaceConfiguration { width: 800, height: 1 };
    assert_eq!(recovery, Recovery::Reconfigure(config));
    assert_eq!(gpu, GpuContext { surface_config: config, ..before });
}

#[test]
fn the_second_failed_acquisition_drops_the_frame() {
    let mut gpu = context_of(640, 480);
    let before = gpu;
    let recovery = gpu.recover(Acquisition::Retry, &window_of(800, 600));
    assert_eq!(recovery, Recovery::SkipFrame);
    assert_eq!(gpu, before);
}
