//! The Mandelbrot demo: a view of the set, given by the point under the
//! cursor, a zoom and an iteration limit.
//!
//! Arrow keys move the point by a fixed step divided by the zoom, the
//! wheel changes the zoom, and typing `u` or `d` raises or lowers the
//! iteration limit.
use crate::event::{
    Event,
    Key,
    KeyEvent,
    MouseScrollDelta,
    NamedKey,
    PhysicalPosition,
    PhysicalSize,
    Window,
    WindowEvent,
};
use crate::expr::Expr;
use crate::gpu::app::{
    Effects,
    EffectsView,
    GpuApplication,
    closed_by_default,
    default_on_close,
    default_on_redraw,
    default_on_resize,
    redrawn_by_default,
    resized_by_default,
};
use crate::gpu::context::{GpuContext, GpuShaderConfig};
use crate::gpu::instance::GpuInstance;
use crate::gpu::runtime::{Input, Runtime, lemma_after_next};
use crate::layout::{
    FieldKind,
    ShaderType,
    UniformValue,
    extent,
    field_offset,
    kinds_of,
    lemma_fixed_size,
    record_size,
};
use crate::scalar::{ONE, Vec2, ZERO, at_least, raise, raised};
use vstd::prelude::*;

verus! {

/// `0.01`: how much of `zoom^1.02` one line of scrolling adds to the zoom.
pub const ZOOM_INCREMENT_FACTOR: u32 = 0x3c23_d70a;

/// `1.02`: the power of the zoom that a scroll step is proportional to.
pub const ZOOM_EXPONENT: u32 = 0x3f82_8f5c;

/// `1.1`: the zoom never falls below this.
pub const ZOOM_FLOOR: u32 = 0x3f8c_cccd;

/// `0.1`: how far one arrow key press moves the point at zoom one.
pub const CAMERA_POS_INCREMENT_FACTOR: u32 = 0x3dcc_cccd;

/// `20.0`: the pixels of scrolling that count as one line.
pub const PIXELS_PER_LINE: u32 = 0x41a0_0000;

/// By how much `u` raises and `d` lowers the iteration limit.
pub const ITERATION_STEP: u32 = 3;

/// The iteration limit of a new state.
pub const INITIAL_ITERATIONS: u32 = 50;

/// A coordinate of the point under the cursor.
#[derive(Clone, Copy, Debug, PartialEq, Eq)]
pub enum Axis {
    X,
    Y,
}

/// The state of the demo. `cursor_pos` and `zoom` are binary32 bit
/// patterns.
#[derive(Clone, Copy, Debug, PartialEq, Eq)]
pub struct AppState {
    pub cursor_pos: Vec2,
    pub zoom: u32,
    pub max_iterations: u32,
}

/// The move that a key stands for: a number of steps, up and right
/// counted positive, along an axis.
pub open spec fn direction(key: Key) -> Option<(i32, Axis)> {
    match key {
        Key::Named(NamedKey::ArrowUp) => Some((1i32, Axis::Y)),
        Key::Named(NamedKey::ArrowDown) => Some((-1i32, Axis::Y)),
        Key::Named(NamedKey::ArrowLeft) => Some((-1i32, Axis::X)),
        Key::Named(NamedKey::ArrowRight) => Some((1i32, Axis::X)),
        _ => None,
    }
}

/// The amount scrolled as one number: the lines scrolled vertically, or
/// the pixels scrolled vertically divided by twenty. Horizontal scrolling
/// does not count.
pub open spec fn scroll_amount(delta: MouseScrollDelta) -> Expr {
    match delta {
        MouseScrollDelta::LineDelta(_, vertical) => Expr::Bits(vertical),
        MouseScrollDelta::PixelDelta(position) => Expr::Quotient(
            Box::new(Expr::Narrow(position.y)),
            Box::new(Expr::Bits(PIXELS_PER_LINE)),
        ),
    }
}

/// The iteration limit after `u`: three more, at most `u32::MAX`.
pub open spec fn limit_raised(limit: u32) -> u32 {
    if limit <= u32::MAX - ITERATION_STEP {
        (limit + ITERATION_STEP) as u32
    } else {
        u32::MAX
    }
}

/// The iteration limit after `d`: three less, at least zero.
pub open spec fn limit_lowered(limit: u32) -> u32 {
    if limit >= ITERATION_STEP {
        (limit - ITERATION_STEP) as u32
    } else {
        0
    }
}

/// The iteration limit after `d` was typed `presses` times.
pub open spec fn limit_lowered_by(limit: u32, presses: nat) -> u32
    decreases presses,
{
    if presses == 0 {
        limit
    } else {
        limit_lowered(limit_lowered_by(limit, (presses - 1) as nat))
    }
}

/// However often `d` is typed, the iteration limit does not wrap around:
/// it is three less for each press until fewer than three are left, and
/// zero from then on.
pub proof fn lemma_limit_stops_at_zero(limit: u32, presses: nat)
    ensures
        limit_lowered_by(limit, presses) == if limit >= ITERATION_STEP * presses {
            limit - ITERATION_STEP * presses
        } else {
            0
        },
        limit_lowered_by(limit, presses) <= limit,
    decreases presses,
{
    if presses > 0 {
        lemma_limit_stops_at_zero(limit, (presses - 1) as nat);
    }
}

/// The move that a key stands for, if any.
pub fn key_direction(key: Key) -> (result: Option<(i32, Axis)>)
    ensures
        result == direction(key),
{
    match key {
        Key::Named(NamedKey::ArrowUp) => Some((1i32, Axis::Y)),
        Key::Named(NamedKey::ArrowDown) => Some((-1i32, Axis::Y)),
        Key::Named(NamedKey::ArrowLeft) => Some((-1i32, Axis::X)),
        Key::Named(NamedKey::ArrowRight) => Some((1i32, Axis::X)),
        _ => None,
    }
}

/// The amount scrolled as one number, for the host to evaluate.
pub fn scroll_expr(delta: MouseScrollDelta) -> (expr: Expr)
    ensures
        expr == scroll_amount(delta),
{
    match delta {
        MouseScrollDelta::LineDelta(_, vertical) => Expr::Bits(vertical),
        MouseScrollDelta::PixelDelta(position) => Expr::quotient(
            Expr::Narrow(position.y),
            Expr::Bits(PIXELS_PER_LINE),
        ),
    }
}

impl AppState {
    /// A new state: the point at the origin, zoom one, fifty iterations.
    pub open spec fn initial() -> AppState {
        AppState {
            cursor_pos: Vec2 { x: ZERO, y: ZERO },
            zoom: ONE,
            max_iterations: INITIAL_ITERATIONS,
        }
    }

    /// The point's coordinate along `axis`.
    pub open spec fn coordinate(self, axis: Axis) -> u32 {
        match axis {
            Axis::X => self.cursor_pos.x,
            Axis::Y => self.cursor_pos.y,
        }
    }

    /// The state with the point's coordinate along `axis` replaced.
    pub open spec fn moved_to(self, axis: Axis, position: u32) -> AppState {
        match axis {
            Axis::X => AppState { cursor_pos: Vec2 { x: position, ..self.cursor_pos }, ..self },
            Axis::Y => AppState { cursor_pos: Vec2 { y: position, ..self.cursor_pos }, ..self },
        }
    }

    /// Where `increments` steps along `axis` lead:
    /// `coordinate + 0.1 * increments / zoom`.
    pub open spec fn translation(self, increments: i32, axis: Axis) -> Expr {
        Expr::Sum(
            Box::new(Expr::Bits(self.coordinate(axis))),
            Box::new(
                Expr::Quotient(
                    Box::new(
                        Expr::Product(
                            Box::new(Expr::Bits(CAMERA_POS_INCREMENT_FACTOR)),
                            Box::new(Expr::FromInt(increments)),
                        ),
                    ),
                    Box::new(Expr::Bits(self.zoom)),
                ),
            ),
        )
    }

    /// The zoom that scrolling by `amount` asks for, before the floor:
    /// `zoom + 0.01 * amount * zoom^1.02`.
    pub open spec fn zoom_step(self, amount: Expr) -> Expr {
        Expr::Sum(
            Box::new(Expr::Bits(self.zoom)),
            Box::new(
                Expr::Product(
                    Box::new(
                        Expr::Product(Box::new(Expr::Bits(ZOOM_INCREMENT_FACTOR)), Box::new(amount)),
                    ),
                    Box::new(
                        Expr::Power(
                            Box::new(Expr::Bits(self.zoom)),
                            Box::new(Expr::Bits(ZOOM_EXPONENT)),
                        ),
                    ),
                ),
            ),
        )
    }

    /// The state with `candidate` as its zoom, raised to the floor.
    pub open spec fn zoomed(self, candidate: u32) -> AppState {
        AppState { zoom: raised(candidate, ZOOM_FLOOR), ..self }
    }

    /// The state after the text that a key produced: `u` raises the
    /// iteration limit, `d` lowers it, anything else leaves it.
    pub open spec fn typed(self, input: KeyEvent) -> AppState {
        if input.typed('u') {
            AppState { max_iterations: limit_raised(self.max_iterations), ..self }
        } else if input.typed('d') {
            AppState { max_iterations: limit_lowered(self.max_iterations), ..self }
        } else {
            self
        }
    }

    /// The expression for where `increments` steps along `axis` lead.
    pub fn translation_expr(&self, increments: i32, axis: Axis) -> (expr: Expr)
        ensures
            expr == self.translation(increments, axis),
    {
        let coordinate: u32 = match axis {
            Axis::X => self.cursor_pos.x,
            Axis::Y => self.cursor_pos.y,
        };
        Expr::sum(
            Expr::Bits(coordinate),
            Expr::quotient(
                Expr::product(Expr::Bits(CAMERA_POS_INCREMENT_FACTOR), Expr::FromInt(increments)),
                Expr::Bits(self.zoom),
            ),
        )
    }

    /// The expression for the zoom that scrolling by `amount` asks for.
    pub fn zoom_expr(&self, amount: Expr) -> (expr: Expr)
        ensures
            expr == self.zoom_step(amount),
    {
        Expr::sum(
            Expr::Bits(self.zoom),
            Expr::product(
                Expr::product(Expr::Bits(ZOOM_INCREMENT_FACTOR), amount),
                Expr::power(Expr::Bits(self.zoom), Expr::Bits(ZOOM_EXPONENT)),
            ),
        )
    }

    /// Moves the point: its coordinate along `axis` becomes `position`,
    /// the value of `translation` as the host evaluated it.
    pub fn translate_view(&mut self, axis: Axis, position: u32)
        ensures
            *final(self) == old(self).moved_to(axis, position),
    {
        match axis {
            Axis::X => {
                self.cursor_pos.x = position;
            },
            Axis::Y => {
                self.cursor_pos.y = position;
            },
        }
    }

    /// Sets the zoom to `candidate`, the value of `zoom_step` as the host
    /// evaluated it, or to the floor of 1.1 where `candidate` is below it
    /// or is no number.
    pub fn zoom(&mut self, candidate: u32)
        ensures
            *final(self) == old(self).zoomed(candidate),
            at_least(final(self).zoom, ZOOM_FLOOR),
    {
        self.zoom = raise(candidate, ZOOM_FLOOR);
    }

    /// Reacts to the text that a key produced.
    pub fn type_text(&mut self, input: &KeyEvent)
        ensures
            *final(self) == old(self).typed(*input),
    {
        if input.text_is('u') {
            self.max_iterations = self.max_iterations.saturating_add(ITERATION_STEP);
        } else if input.text_is('d') {
            self.max_iterations = self.max_iterations.saturating_sub(ITERATION_STEP);
        }
    }
}

impl Default for AppState {
    fn default() -> (state: AppState)
        ensures
            state == AppState::initial(),
    {
        AppState {
            cursor_pos: Vec2 { x: ZERO, y: ZERO },
            zoom: ONE,
            max_iterations: INITIAL_ITERATIONS,
        }
    }
}

impl ShaderType for AppState {
    open spec fn layout() -> Seq<FieldKind> {
        seq![FieldKind::Vec2, FieldKind::Float, FieldKind::Uint]
    }

    open spec fn record(&self) -> Seq<UniformValue> {
        seq![
            UniformValue::Vec2(self.cursor_pos.x, self.cursor_pos.y),
            UniformValue::Float(self.zoom),
            UniformValue::Uint(self.max_iterations),
        ]
    }

    proof fn lemma_record(&self) {
        assert(kinds_of(self.record()) =~= Self::layout());
        lemma_layout();
    }

    fn uniform_size() -> (size: usize) {
        proof {
            lemma_layout();
        }
        16
    }

    fn uniform_record(&self) -> (values: Vec<UniformValue>) {
        let mut values: Vec<UniformValue> = Vec::new();
        values.push(UniformValue::Vec2(self.cursor_pos.x, self.cursor_pos.y));
        values.push(UniformValue::Float(self.zoom));
        values.push(UniformValue::Uint(self.max_iterations));
        assert(values@ =~= self.record());
        values
    }
}

impl GpuApplication for AppState {
    open spec fn built(self, instance: GpuInstance, shader_source: &'static str) -> GpuContext {
        GpuContext::built(instance, shader_config(shader_source), 16)
    }

    fn build(self, instance: GpuInstance, shader_source: &'static str) -> (gpu: GpuContext) {
        proof {
            lemma_layout();
        }
        GpuContext::new::<AppState>(
            instance,
            GpuShaderConfig {
                src: shader_source,
                vertex_entry: "vs_main",
                fragment_entry: "fs_main",
            },
        )
    }

    proof fn lemma_built(self, instance: GpuInstance, shader_source: &'static str) {
        lemma_layout();
    }

    proof fn lemma_hooks(
        self,
        window: Window,
        gpu: GpuContext,
        new_size: PhysicalSize,
        input: KeyEvent,
        position: PhysicalPosition,
        delta: MouseScrollDelta,
        evaluated: Seq<u32>,
    ) {
        lemma_fixed_size(self, self);
    }

    open spec fn requested(self, event: WindowEvent, window: Window) -> Seq<Expr> {
        match event {
            WindowEvent::KeyboardInput(input) => match direction(input.logical_key) {
                Some((increments, axis)) => seq![self.translation(increments, axis)],
                None => Seq::empty(),
            },
            WindowEvent::MouseWheel(delta) => seq![self.zoom_step(scroll_amount(delta))],
            _ => Seq::empty(),
        }
    }

    fn requests(&self, event: &WindowEvent, window: &Window) -> (exprs: Vec<Expr>) {
        let mut exprs: Vec<Expr> = Vec::new();
        match event {
            WindowEvent::KeyboardInput(input) => {
                if let Some((increments, axis)) = key_direction(input.logical_key) {
                    exprs.push(self.translation_expr(increments, axis));
                }
            },
            WindowEvent::MouseWheel(delta) => {
                exprs.push(self.zoom_expr(scroll_expr(*delta)));
            },
            _ => {},
        }
        assert(exprs@ =~= self.requested(*event, *window));
        exprs
    }

    open spec fn closed(self, window: Window, gpu: GpuContext) -> (Self, EffectsView) {
        (self, closed_by_default())
    }

    fn on_close(&mut self, window: &Window, gpu: &GpuContext) -> (effects: Effects) {
        default_on_close()
    }

    open spec fn resized(self, new_size: PhysicalSize, window: Window, gpu: GpuContext) -> (
        Self,
        GpuContext,
        EffectsView,
    ) {
        (self, resized_by_default(new_size, gpu).0, resized_by_default(new_size, gpu).1)
    }

    fn on_resize(&mut self, new_size: PhysicalSize, window: &Window, gpu: &mut GpuContext) -> (effects:
        Effects) {
        default_on_resize(new_size, gpu)
    }

    open spec fn redrawn(self, window: Window, gpu: GpuContext) -> (Self, EffectsView) {
        (self, redrawn_by_default(self.record(), gpu))
    }

    fn on_redraw(&mut self, window: &Window, gpu: &GpuContext) -> (effects: Effects) {
        default_on_redraw(&*self, gpu)
    }

    /// An arrow key moves the point to where the host found the
    /// translation to lead, `u` and `d` change the iteration limit, and
    /// every key asks for a redraw.
    open spec fn keyed(self, input: KeyEvent, evaluated: Seq<u32>, window: Window, gpu: GpuContext) -> (
        Self,
        EffectsView,
    ) {
        let moved = match direction(input.logical_key) {
            Some((_, axis)) if evaluated.len() > 0 => self.moved_to(axis, evaluated[0]),
            _ => self,
        };
        (moved.typed(input), EffectsView::redraw())
    }

    fn on_keyboard(
        &mut self,
        input: &KeyEvent,
        evaluated: &Vec<u32>,
        window: &Window,
        gpu: &GpuContext,
    ) -> (effects: Effects) {
        if let Some((_, axis)) = key_direction(input.logical_key) {
            if evaluated.len() > 0 {
                self.translate_view(axis, evaluated[0]);
            }
        }
        self.type_text(input);
        Effects::redraw()
    }

    open spec fn cursor_moved(
        self,
        position: PhysicalPosition,
        evaluated: Seq<u32>,
        window: Window,
        gpu: GpuContext,
    ) -> (Self, EffectsView) {
        (self, EffectsView::none())
    }

    fn on_cursor_move(
        &mut self,
        position: PhysicalPosition,
        evaluated: &Vec<u32>,
        window: &Window,
        gpu: &GpuContext,
    ) -> (effects: Effects) {
        Effects::none()
    }

    /// The zoom becomes what the host found the zoom step to be, raised
    /// to the floor; without a value from the host the zoom it has is
    /// raised to the floor. A redraw is asked for.
    open spec fn scrolled(
        self,
        delta: MouseScrollDelta,
        evaluated: Seq<u32>,
        window: Window,
        gpu: GpuContext,
    ) -> (Self, EffectsView) {
        let candidate = if evaluated.len() > 0 {
            evaluated[0]
        } else {
            self.zoom
        };
        (self.zoomed(candidate), EffectsView::redraw())
    }

    fn on_scroll(
        &mut self,
        delta: MouseScrollDelta,
        evaluated: &Vec<u32>,
        window: &Window,
        gpu: &GpuContext,
    ) -> (effects: Effects) {
        let candidate: u32 = if evaluated.len() > 0 {
            evaluated[0]
        } else {
            self.zoom
        };
        self.zoom(candidate);
        Effects::redraw()
    }
}

/// The demo's shader configuration for a source text.
pub open spec fn shader_config(shader_source: &'static str) -> GpuShaderConfig<'static> {
    GpuShaderConfig { src: shader_source, vertex_entry: "vs_main", fragment_entry: "fs_main" }
}

/// The record takes sixteen bytes: the point at offset 0, the zoom at 8,
/// the iteration limit at 12.
pub proof fn lemma_layout()
    ensures
        AppState::layout().len() == 3,
        field_offset(AppState::layout(), 0) == 0,
        field_offset(AppState::layout(), 1) == 8,
        field_offset(AppState::layout(), 2) == 12,
        record_size(AppState::layout()) == 16,
{
    let kinds = AppState::layout();
    assert(extent(kinds, 0) == 0);
    assert(extent(kinds, 1) == 8);
    assert(extent(kinds, 2) == 12);
    assert(extent(kinds, 3) == 16);
}

/// While the loop runs, the zoom is not below the floor: either the
/// runtime is not running, or its state's zoom is a number of at least
/// 1.1.
pub open spec fn zoom_floored(runtime: Runtime<AppState>) -> bool {
    runtime matches Runtime::Running { state, .. } ==> at_least(state.zoom, ZOOM_FLOOR)
}

/// Whatever the host found the zoom step to be, and whatever was
/// scrolled, the zoom after a scroll is a number of at least 1.1.
pub proof fn lemma_scroll_floors_zoom(
    state: AppState,
    delta: MouseScrollDelta,
    evaluated: Seq<u32>,
    window: Window,
    gpu: GpuContext,
)
    ensures
        at_least(state.scrolled(delta, evaluated, window, gpu).0.zoom, ZOOM_FLOOR),
{
}

/// No event but a scroll changes the zoom, and no event takes it below
/// the floor once it is there.
pub proof fn lemma_zoom_stays_floored(
    runtime: Runtime<AppState>,
    event: Event,
    evaluated: Seq<u32>,
    window: Window,
)
    requires
        zoom_floored(runtime),
    ensures
        zoom_floored(runtime.step(event, evaluated, window).0),
{
}

/// After a scroll the zoom is at least 1.1 for as long as the loop runs,
/// whatever events follow and whatever the host evaluates.
pub proof fn lemma_zoom_floor(runtime: Runtime<AppState>, inputs: Seq<Input>, scroll: int, later: int)
    requires
        0 <= scroll < later <= inputs.len(),
        runtime.after(inputs.take(scroll)) is Running,
        inputs[scroll].event matches Event::WindowEvent {
            window_id,
            event: WindowEvent::MouseWheel(_),
        } && window_id == inputs[scroll].window.id,
    ensures
        zoom_floored(runtime.after(inputs.take(later))),
    decreases later - scroll,
{
    lemma_after_next(runtime, inputs, later - 1);
    if scroll + 1 < later {
        lemma_zoom_floor(runtime, inputs, scroll, later - 1);
        lemma_zoom_stays_floored(
            runtime.after(inputs.take(later - 1)),
            inputs[later - 1].event,
            inputs[later - 1].evaluated,
            inputs[later - 1].window,
        );
    }
}

/// The demo draws on demand only: a frame is drawn for a request to
/// redraw that reaches the running loop, and for nothing else.
pub proof fn lemma_draws_on_demand(
    runtime: Runtime<AppState>,
    event: Event,
    evaluated: Seq<u32>,
    window: Window,
)
    ensures
        runtime.step(event, evaluated, window).1.frame is Some <==> runtime.dispatches(
            event,
            window,
        ) && event matches Event::WindowEvent { event: WindowEvent::RedrawRequested, .. },
{
}

} // verus!
