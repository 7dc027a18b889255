use wgpu_sandbox::event::{
    Key, KeyEvent, MouseScrollDelta, NamedKey, PhysicalPosition, PhysicalSize, Window, WindowEvent,
};
use wgpu_sandbox::examples::triangle::AppState;
use wgpu_sandbox::expr::Expr;
use wgpu_sandbox::gpu::app::{Effects, GpuApplication};
use wgpu_sandbox::gpu::context::GpuContext;
use wgpu_sandbox::gpu::instance::{GpuInstance, SurfaceCapabilities};
use wgpu_sandbox::layout::{ShaderType, UniformValue};
use wgpu_sandbox::scalar::Vec4;

fn number(expr: &Expr) -> f32 {
    match expr {
        Expr::Bits(bits) => f32::from_bits(*bits),
        Expr::FromInt(integer) => *integer as f32,
        Expr::Narrow(bits) => f64::from_bits(*bits) as f32,
        Expr::Ratio(bits, divisor) => (f64::from_bits(*bits) / f64::from(*divisor)) as f32,
        Expr::Sum(left, right) => number(left) + number(right),
        Expr::Product(left, right) => number(left) * number(right),
        Expr::Quotient(left, right) => number(left) / number(right),
        Expr::Power(left, right) => number(left).powf(number(right)),
    }
}

fn window_of(width: u32, height: u32) -> Window {
    Window { id: 3, inner_size: PhysicalSize { width, height } }
}

fn context_for(window: &Window) -> GpuContext {
    let instance = GpuInstance::new(window, SurfaceCapabilities { formats: vec![1] });
    AppState::default().build(instance, "triangle shader")
}

fn move_cursor(state: &mut AppState, x: f64, y: f64, window: &Window) -> Effects {
    let position = PhysicalPosition { x: x.to_bits(), y: y.to_bits() };
    let event = WindowEvent::CursorMoved(position);
    let exprs = state.requests(&event, window);
    let evaluated: Vec<u32> = exprs.iter().map(|expr| number(expr).to_bits()).collect();
    state.on_cursor_move(position, &evaluated, window, &context_for(window))
}

#[test]
fn a_new_triangle_is_black() {
    let state = AppState::default();
    assert_eq!(state.color, Vec4 { x: 0, y: 0, z: 0, w: 0 });
    assert_eq!(state.uniform_record(), vec![UniformValue::Vec4(0, 0, 0, 0)]);
    assert_eq!(state.as_wgsl_bytes().unwrap(), vec![0u8; 16]);
}

#[test]
fn the_color_is_written_channel_by_channel() {
    let state = AppState {
        color: Vec4 {
            x: 0.25f32.to_bits(),
            y: 0.5f32.to_bits(),
            z: 0.75f32.to_bits(),
            w: 1.0f32.to_bits(),
        },
    };
    let mut expected = Vec::new();
    for channel in [0.25f32, 0.5, 0.75, 1.0] {
        expected.extend_from_slice(&channel.to_le_bytes());
    }
    assert_eq!(state.as_wgsl_bytes().unwrap(), expected);
}

#[test]
fn the_cursor_sets_the_first_two_channels() {
    let window = window_of(800, 400);
    let mut state = AppState {
        color: Vec4 { x: 1, y: 2, z: 3, w: 4 },
    };
    let effects = move_cursor(&mut state, 200.0, 300.0, &window);
    assert_eq!(f32::from_bits(state.color.x), 0.25);
    assert_eq!(f32::from_bits(state.color.y), 0.75);
    assert_eq!(state.color.z, 3);
    assert_eq!(state.color.w, 4);
    assert_eq!(effects, Effects::none());
}

#[test]
fn the_cursor_is_normalized_by_the_size_of_the_window() {
    let window = window_of(1920, 1080);
    let state = AppState::default();
    let position = PhysicalPosition { x: 960.0f64.to_bits(), y: 1080.0f64.to_bits() };
    let exprs = state.requests(&WindowEvent::CursorMoved(position), &window);
    assert_eq!(
        exprs,
        vec![
            Expr::Ratio(960.0f64.to_bits(), 1920),
            Expr::Ratio(1080.0f64.to_bits(), 1080),
        ]
    );
    assert_eq!(number(&exprs[0]), 0.5);
    assert_eq!(number(&exprs[1]), 1.0);
}

#[test]
fn a_window_without_extent_counts_as_one_pixel() {
    let window = window_of(0, 0);
    let mut state = AppState::default();
    let position = PhysicalPosition { x: 0.5f64.to_bits(), y: 0.25f64.to_bits() };
    let exprs = state.requests(&WindowEvent::CursorMoved(position), &window);
    assert_eq!(
        exprs,
        vec![Expr::Ratio(0.5f64.to_bits(), 1), Expr::Ratio(0.25f64.to_bits(), 1)]
    );
    move_cursor(&mut state, 0.5, 0.25, &window);
    assert_eq!(f32::from_bits(state.color.x), 0.5);
    assert_eq!(f32::from_bits(state.color.y), 0.25);
}

#[test]
fn the_color_needs_both_values_from_the_host() {
    let window = window_of(10, 10);
    let position = PhysicalPosition { x: 0, y: 0 };
    let gpu = context_for(&window);
    let start = AppState {
        color: Vec4 { x: 1, y: 2, z: 3, w: 4 },
    };
    let mut state = start;
    state.on_cursor_move(position, &Vec::new(), &window, &gpu);
    assert_eq!(state, start);
    state.on_cursor_move(position, &vec![9], &window, &gpu);
    assert_eq!(state, start);
    state.on_cursor_move(position, &vec![9, 8], &window, &gpu);
    assert_eq!(state.color, Vec4 { x: 9, y: 8, z: 3, w: 4 });
    state.tint(5, 6);
    assert_eq!(state.color, Vec4 { x: 5, y: 6, z: 3, w: 4 });
}

#[test]
fn keys_and_the_wheel_leave_the_triangle_alone() {
    let window = window_of(10, 10);
    let gpu = context_for(&window);
    let start = AppState {
        color: Vec4 { x: 1, y: 2, z: 3, w: 4 },
    };
    let mut state = start;
    let input = KeyEvent { logical_key: Key::Named(NamedKey::ArrowUp), text: Some("u".to_string()) };
    assert_eq!(state.requests(&WindowEvent::KeyboardInput(input.clone()), &window), Vec::new());
    assert_eq!(state.on_keyboard(&input, &vec![7], &window, &gpu), Effects::none());
    let delta = MouseScrollDelta::LineDelta(1, 1);
    assert_eq!(state.requests(&WindowEvent::MouseWheel(delta), &window), Vec::new());
    assert_eq!(state.on_scroll(delta, &vec![7], &window, &gpu), Effects::none());
    assert_eq!(state, start);
}

#[test]
fn the_triangle_follows_the_default_hooks() {
    let window = window_of(640, 480);
    let mut gpu = context_for(&window);
    let mut state = AppState::default();
    assert_eq!(state.on_close(&window, &gpu), Effects::exit());
    let effects = state.on_resize(PhysicalSize { width: 320, height: 0 }, &window, &mut gpu);
    assert_eq!(gpu.surface_config.width, 320);
    assert_eq!(gpu.surface_config.height, 1);
    assert_eq!(effects.configure, Some(gpu.surface_config));
    assert!(effects.request_redraw);
    let effects = state.on_redraw(&window, &gpu);
    assert_eq!(effects.frame.unwrap().uniform_data, vec![0u8; 16]);
    assert_eq!(gpu.pipeline.vertex_entry, "vs_main");
    assert_eq!(gpu.pipeline.fragment_entry, "fs_main");
    assert_eq!(gpu.shader_source, "triangle shader");
}
