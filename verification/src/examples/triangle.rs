//! The triangle demo: one triangle whose color follows the cursor.
use crate::event::{
    Event,
    KeyEvent,
    MouseScrollDelta,
    PhysicalPosition,
    PhysicalSize,
    Window,
    WindowEvent,
    clamp_dimension,
    clamped,
};
use crate::expr::Expr;
use crate::gpu::app::{
    Effects,
    EffectsView,
    GpuApplication,
    closed_by_default,
    default_on_close,
    default_on_redraw,
    default_on_resize,
    redrawn_by_default,
    resized_by_default,
};
use crate::gpu::context::{GpuContext, GpuShaderConfig};
use crate::gpu::instance::GpuInstance;
use crate::gpu::runtime::Runtime;
use crate::layout::{
    FieldKind,
    ShaderType,
    UniformValue,
    extent,
    field_offset,
    kinds_of,
    lemma_fixed_size,
    record_size,
};
use crate::scalar::{Vec4, ZERO};
use vstd::prelude::*;

verus! {

/// The state of the demo: the color, its channels binary32 bit patterns.
#[derive(Clone, Copy, Debug, PartialEq, Eq)]
pub struct AppState {
    pub color: Vec4,
}

/// The cursor's position as a fraction of the window's size, first along
/// the width, then along the height. A window without extent counts as
/// one pixel wide or high.
pub open spec fn normalized(position: PhysicalPosition, size: PhysicalSize) -> Seq<Expr> {
    seq![
        Expr::Ratio(position.x, clamped(size.width)),
        Expr::Ratio(position.y, clamped(size.height)),
    ]
}

impl AppState {
    /// A new state: every channel zero.
    pub open spec fn initial() -> AppState {
        AppState { color: Vec4 { x: ZERO, y: ZERO, z: ZERO, w: ZERO } }
    }

    /// The state with the first two channels replaced.
    pub open spec fn tinted(self, red: u32, green: u32) -> AppState {
        AppState { color: Vec4 { x: red, y: green, ..self.color } }
    }

    /// Replaces the first two channels of the color.
    pub fn tint(&mut self, red: u32, green: u32)
        ensures
            *final(self) == old(self).tinted(red, green),
    {
        self.color.x = red;
        self.color.y = green;
    }
}

impl Default for AppState {
    fn default() -> (state: AppState)
        ensures
            state == AppState::initial(),
    {
        AppState { color: Vec4 { x: ZERO, y: ZERO, z: ZERO, w: ZERO } }
    }
}

impl ShaderType for AppState {
    open spec fn layout() -> Seq<FieldKind> {
        seq![FieldKind::Vec4]
    }

    open spec fn record(&self) -> Seq<UniformValue> {
        seq![UniformValue::Vec4(self.color.x, self.color.y, self.color.z, self.color.w)]
    }

    proof fn lemma_record(&self) {
        assert(kinds_of(self.record()) =~= Self::layout());
        lemma_layout();
    }

    fn uniform_size() -> (size: usize) {
        proof {
            lemma_layout();
        }
        16
    }

    fn uniform_record(&self) -> (values: Vec<UniformValue>) {
        let mut values: Vec<UniformValue> = Vec::new();
        values.push(UniformValue::Vec4(self.color.x, self.color.y, self.color.z, self.color.w));
        assert(values@ =~= self.record());
        values
    }
}

impl GpuApplication for AppState {
    open spec fn built(self, instance: GpuInstance, shader_source: &'static str) -> GpuContext {
        GpuContext::built(instance, shader_config(shader_source), 16)
    }

    fn build(self, instance: GpuInstance, shader_source: &'static str) -> (gpu: GpuContext) {
        proof {
            lemma_layout();
        }
        GpuContext::new::<AppState>(
            instance,
            GpuShaderConfig {
                src: shader_source,
                vertex_entry: "vs_main",
                fragment_entry: "fs_main",
            },
        )
    }

    proof fn lemma_built(self, instance: GpuInstance, shader_source: &'static str) {
        lemma_layout();
    }

    proof fn lemma_hooks(
        self,
        window: Window,
        gpu: GpuContext,
        new_size: PhysicalSize,
        input: KeyEvent,
        position: PhysicalPosition,
        delta: MouseScrollDelta,
        evaluated: Seq<u32>,
    ) {
        lemma_fixed_size(self, self);
    }

    open spec fn requested(self, event: WindowEvent, window: Window) -> Seq<Expr> {
        match event {
            WindowEvent::CursorMoved(position) => normalized(position, window.inner_size),
            _ => Seq::empty(),
        }
    }

    fn requests(&self, event: &WindowEvent, window: &Window) -> (exprs: Vec<Expr>) {
        let mut exprs: Vec<Expr> = Vec::new();
        match event {
            WindowEvent::CursorMoved(position) => {
                let size = window.inner_size;
                exprs.push(Expr::Ratio(position.x, clamp_dimension(size.width)));
                exprs.push(Expr::Ratio(position.y, clamp_dimension(size.height)));
            },
            _ => {},
        }
        assert(exprs@ =~= self.requested(*event, *window));
        exprs
    }

    open spec fn closed(self, window: Window, gpu: GpuContext) -> (Self, EffectsView) {
        (self, closed_by_default())
    }

    fn on_close(&mut self, window: &Window, gpu: &GpuContext) -> (effects: Effects) {
        default_on_close()
    }

    open spec fn resized(self, new_size: PhysicalSize, window: Window, gpu: GpuContext) -> (
        Self,
        GpuContext,
        EffectsView,
    ) {
        (self, resized_by_default(new_size, gpu).0, resized_by_default(new_size, gpu).1)
    }

    fn on_resize(&mut self, new_size: PhysicalSize, window: &Window, gpu: &mut GpuContext) -> (effects:
        Effects) {
        default_on_resize(new_size, gpu)
    }

    open spec fn redrawn(self, window: Window, gpu: GpuContext) -> (Self, EffectsView) {
        (self, redrawn_by_default(self.record(), gpu))
    }

    fn on_redraw(&mut self, window: &Window, gpu: &GpuContext) -> (effects: Effects) {
        default_on_redraw(&*self, gpu)
    }

    open spec fn keyed(self, input: KeyEvent, evaluated: Seq<u32>, window: Window, gpu: GpuContext) -> (
        Self,
        EffectsView,
    ) {
        (self, EffectsView::none())
    }

    fn on_keyboard(
        &mut self,
        input: &KeyEvent,
        evaluated: &Vec<u32>,
        window: &Window,
        gpu: &GpuContext,
    ) -> (effects: Effects) {
        Effects::none()
    }

    /// The first two channels become the cursor's position as a fraction
    /// of the window's size, as the host found it. Nothing is drawn until
    /// the window asks.
    open spec fn cursor_moved(
        self,
        position: PhysicalPosition,
        evaluated: Seq<u32>,
        window: Window,
        gpu: GpuContext,
    ) -> (Self, EffectsView) {
        if evaluated.len() >= 2 {
            (self.tinted(evaluated[0], evaluated[1]), EffectsView::none())
        } else {
            (self, EffectsView::none())
        }
    }

    fn on_cursor_move(
        &mut self,
        position: PhysicalPosition,
        evaluated: &Vec<u32>,
        window: &Window,
        gpu: &GpuContext,
    ) -> (effects: Effects) {
        if evaluated.len() >= 2 {
            self.tint(evaluated[0], evaluated[1]);
        }
        Effects::none()
    }

    open spec fn scrolled(
        self,
        delta: MouseScrollDelta,
        evaluated: Seq<u32>,
        window: Window,
        gpu: GpuContext,
    ) -> (Self, EffectsView) {
        (self, EffectsView::none())
    }

    fn on_scroll(
        &mut self,
        delta: MouseScrollDelta,
        evaluated: &Vec<u32>,
        window: &Window,
        gpu: &GpuContext,
    ) -> (effects: Effects) {
        Effects::none()
    }
}

/// The demo's shader configuration for a source text.
pub open spec fn shader_config(shader_source: &'static str) -> GpuShaderConfig<'static> {
    GpuShaderConfig { src: shader_source, vertex_entry: "vs_main", fragment_entry: "fs_main" }
}

/// The record takes sixteen bytes, all of them the color.
pub proof fn lemma_layout()
    ensures
        AppState::layout().len() == 1,
        field_offset(AppState::layout(), 0) == 0,
        record_size(AppState::layout()) == 16,
{
    let kinds = AppState::layout();
    assert(extent(kinds, 0) == 0);
    assert(extent(kinds, 1) == 16);
}

/// The demo draws on demand only: a frame is drawn for a request to
/// redraw that reaches the running loop, and for nothing else.
pub proof fn lemma_draws_on_demand(
    runtime: Runtime<AppState>,
    event: Event,
    evaluated: Seq<u32>,
    window: Window,
)
    ensures
        runtime.step(event, evaluated, window).1.frame is Some <==> runtime.dispatches(
            event,
            window,
        ) && event matches Event::WindowEvent { event: WindowEvent::RedrawRequested, .. },
{
}

} // verus!
