//! The event loop's state machine.
//!
//! The runtime owns the demo's state and its render context. The host owns
//! the window and the device: it hands each event to the runtime, in the
//! order the platform delivers them, and performs the effects that come
//! back before it takes the next event.
use crate::event::{Event, Window, WindowEvent};
use crate::expr::Expr;
use crate::gpu::app::{Effects, EffectsView, GpuApplication};
use crate::gpu::context::{
    Acquisition,
    GpuContext,
    Recovery,
    SurfaceConfiguration,
    frame_pass,
    setup_device,
};
use crate::gpu::instance::{
    DeviceDescriptor,
    GpuInstance,
    Limits,
    PowerPreference,
    RequestAdapterOptions,
    StartupError,
    SurfaceCapabilities,
};
use crate::layout::record_size;
use vstd::prelude::*;

verus! {

/// Where the runtime stands.
#[derive(Clone, Copy, Debug, PartialEq, Eq)]
pub enum Phase {
    /// Nothing was asked of the graphics backend yet.
    Uninitialized,
    /// The adapter and the device are being negotiated.
    Initializing,
    /// Events are handled and frames are drawn.
    Running,
    /// The loop has ended. Nothing follows.
    Exiting,
}

/// Why the loop ended.
#[derive(Clone, Copy, Debug, PartialEq, Eq)]
pub enum Exit {
    /// A hook asked to leave, or the window was closed.
    Requested,
    /// Startup failed.
    Failed(StartupError),
}

/// What to ask of the graphics backend at startup.
#[derive(Clone, Copy, Debug, PartialEq, Eq)]
pub struct Negotiation {
    pub adapter: RequestAdapterOptions,
    pub device: DeviceDescriptor,
}

/// The runtime of one demo. The state and the render context exist while
/// the loop runs and go together when it ends.
#[derive(Clone, Copy, Debug, PartialEq, Eq)]
pub enum Runtime<S> {
    Uninitialized { state: S },
    Initializing { state: S },
    Running { state: S, gpu: GpuContext },
    Exiting { cause: Exit },
}

/// One event as the host hands it over: the event, the values the host
/// found for the expressions that were asked for, and the window as it is
/// at that time.
pub struct Input {
    pub event: Event,
    pub evaluated: Seq<u32>,
    pub window: Window,
}

/// The negotiation of every startup: a low-power adapter that can present
/// to the surface, never a fallback, and a device with no optional
/// feature and the most constrained limits.
pub open spec fn negotiation() -> Negotiation {
    Negotiation {
        adapter: RequestAdapterOptions {
            power_preference: PowerPreference::LowPower,
            compatible_with_surface: true,
            force_fallback_adapter: false,
        },
        device: DeviceDescriptor {
            optional_features: false,
            required_limits: Limits::DownlevelWebgl2,
        },
    }
}

impl<S: GpuApplication> Runtime<S> {
    /// Where the runtime stands.
    pub open spec fn phase(self) -> Phase {
        match self {
            Runtime::Uninitialized { .. } => Phase::Uninitialized,
            Runtime::Initializing { .. } => Phase::Initializing,
            Runtime::Running { .. } => Phase::Running,
            Runtime::Exiting { .. } => Phase::Exiting,
        }
    }

    /// While the loop runs, the context's resources fit together and its
    /// uniform buffer holds exactly one record of the state's type.
    pub open spec fn wf(self) -> bool {
        self matches Runtime::Running { gpu, .. } ==> gpu.wf() && gpu.serves(S::layout())
    }

    /// The runtime after `start`.
    pub open spec fn started(self) -> Self {
        match self {
            Runtime::Uninitialized { state } => Runtime::Initializing { state },
            _ => self,
        }
    }

    /// The runtime after `attach`, and the effects.
    pub open spec fn attached(
        self,
        window: Window,
        capabilities: SurfaceCapabilities,
        shader_source: &'static str,
    ) -> (Self, EffectsView) {
        match self {
            Runtime::Initializing { state } => if capabilities.formats@.len() > 0 {
                let instance = GpuInstance {
                    surface_config: SurfaceConfiguration::for_size(window.inner_size),
                    capabilities,
                };
                let gpu = state.built(instance, shader_source);
                (
                    Runtime::Running { state, gpu },
                    EffectsView { configure: Some(gpu.surface_config), ..EffectsView::none() },
                )
            } else {
                (
                    Runtime::Exiting { cause: Exit::Failed(StartupError::NoAdapter) },
                    EffectsView::exit(),
                )
            },
            _ => (self, EffectsView::none()),
        }
    }

    /// The runtime after `fail`, and the effects.
    pub open spec fn failed(self, error: StartupError) -> (Self, EffectsView) {
        match self {
            Runtime::Exiting { .. } => (self, EffectsView::none()),
            _ => (Runtime::Exiting { cause: Exit::Failed(error) }, EffectsView::exit()),
        }
    }

    /// The event is one of the window's, and the loop is running.
    pub open spec fn dispatches(self, event: Event, window: Window) -> bool {
        &&& self is Running
        &&& event matches Event::WindowEvent { window_id, .. } && window_id == window.id
    }

    /// The expressions to evaluate before `event` is handled: those the
    /// state asks for where the event is dispatched to it, none
    /// otherwise.
    pub open spec fn requested(self, event: Event, window: Window) -> Seq<Expr> {
        match (self, event) {
            (Runtime::Running { state, .. }, Event::WindowEvent { window_id, event }) => if window_id
                == window.id {
                state.requested(event, window)
            } else {
                Seq::empty()
            },
            _ => Seq::empty(),
        }
    }

    /// The state, the context and the effects after the hook for `event`
    /// ran.
    pub open spec fn hooked(
        state: S,
        gpu: GpuContext,
        event: WindowEvent,
        evaluated: Seq<u32>,
        window: Window,
    ) -> (S, GpuContext, EffectsView) {
        match event {
            WindowEvent::CloseRequested => {
                let (state, effects) = state.closed(window, gpu);
                (state, gpu, EffectsView { exit: true, ..effects })
            },
            WindowEvent::KeyboardInput(input) => {
                let (state, effects) = state.keyed(input, evaluated, window, gpu);
                (state, gpu, effects)
            },
            WindowEvent::MouseWheel(delta) => {
                let (state, effects) = state.scrolled(delta, evaluated, window, gpu);
                (state, gpu, effects)
            },
            WindowEvent::CursorMoved(position) => {
                let (state, effects) = state.cursor_moved(position, evaluated, window, gpu);
                (state, gpu, effects)
            },
            WindowEvent::Resized(new_size) => state.resized(new_size, window, gpu),
            WindowEvent::RedrawRequested => {
                let (state, effects) = state.redrawn(window, gpu);
                (state, gpu, effects)
            },
            WindowEvent::Other => (state, gpu, EffectsView::none()),
        }
    }

    /// Whatever hook runs, the context stays fit for the state and the
    /// effects agree with it.
    pub proof fn lemma_hooked(
        state: S,
        gpu: GpuContext,
        event: WindowEvent,
        evaluated: Seq<u32>,
        window: Window,
    )
        requires
            gpu.wf(),
            gpu.serves(S::layout()),
        ensures
            Self::hooked(state, gpu, event, evaluated, window).1.wf(),
            Self::hooked(state, gpu, event, evaluated, window).1.serves(S::layout()),
            Self::hooked(state, gpu, event, evaluated, window).2.fits(
                Self::hooked(state, gpu, event, evaluated, window).1,
            ),
    {
        match event {
            WindowEvent::KeyboardInput(input) => {
                state.lemma_hooks(
                    window,
                    gpu,
                    arbitrary(),
                    input,
                    arbitrary(),
                    arbitrary(),
                    evaluated,
                );
            },
            WindowEvent::MouseWheel(delta) => {
                state.lemma_hooks(
                    window,
                    gpu,
                    arbitrary(),
                    arbitrary(),
                    arbitrary(),
                    delta,
                    evaluated,
                );
            },
            WindowEvent::CursorMoved(position) => {
                state.lemma_hooks(
                    window,
                    gpu,
                    arbitrary(),
                    arbitrary(),
                    position,
                    arbitrary(),
                    evaluated,
                );
            },
            WindowEvent::Resized(new_size) => {
                state.lemma_hooks(
                    window,
                    gpu,
                    new_size,
                    arbitrary(),
                    arbitrary(),
                    arbitrary(),
                    evaluated,
                );
            },
            _ => {
                state.lemma_hooks(
                    window,
                    gpu,
                    arbitrary(),
                    arbitrary(),
                    arbitrary(),
                    arbitrary(),
                    evaluated,
                );
            },
        }
    }

    /// The runtime after one event, and the effects.
    ///
    /// While the loop runs, an event of the window goes to its hook. A
    /// request to close always ends the loop, whatever the hook returns,
    /// and so does any hook that asks to leave. An event of another
    /// window, and any event before the loop runs or after it ended,
    /// changes nothing and has no effect.
    pub open spec fn step(self, event: Event, evaluated: Seq<u32>, window: Window) -> (
        Self,
        EffectsView,
    ) {
        match (self, event) {
            (Runtime::Running { state, gpu }, Event::WindowEvent { window_id, event }) => if window_id
                == window.id {
                let (state, gpu, effects) = Self::hooked(state, gpu, event, evaluated, window);
                if effects.exit {
                    (Runtime::Exiting { cause: Exit::Requested }, effects)
                } else {
                    (Runtime::Running { state, gpu }, effects)
                }
            } else {
                (self, EffectsView::none())
            },
            _ => (self, EffectsView::none()),
        }
    }

    /// The runtime after an acquisition failed, and what to do next.
    pub open spec fn recovered(self, failed: Acquisition, window: Window) -> (Self, Recovery) {
        match self {
            Runtime::Running { state, gpu } => (
                Runtime::Running { state, gpu: gpu.recovered(failed, window).0 },
                gpu.recovered(failed, window).1,
            ),
            _ => (self, Recovery::SkipFrame),
        }
    }

    /// The runtime after a sequence of events.
    pub open spec fn after(self, inputs: Seq<Input>) -> Self
        decreases inputs.len(),
    {
        if inputs.len() == 0 {
            self
        } else {
            let last = inputs.last();
            self.after(inputs.drop_last()).step(last.event, last.evaluated, last.window).0
        }
    }

    /// The effects of the event at `index` of a sequence of events.
    pub open spec fn effects_at(self, inputs: Seq<Input>, index: int) -> EffectsView {
        let input = inputs[index];
        self.after(inputs.take(index)).step(input.event, input.evaluated, input.window).1
    }

    /// A runtime for a demo in its initial state.
    pub fn new(state: S) -> (runtime: Self)
        ensures
            runtime == (Runtime::Uninitialized { state }),
            runtime.wf(),
    {
        Runtime::Uninitialized { state }
    }

    /// Where the runtime stands.
    pub fn current_phase(&self) -> (phase: Phase)
        ensures
            phase == self.phase(),
    {
        match self {
            Runtime::Uninitialized { .. } => Phase::Uninitialized,
            Runtime::Initializing { .. } => Phase::Initializing,
            Runtime::Running { .. } => Phase::Running,
            Runtime::Exiting { .. } => Phase::Exiting,
        }
    }

    /// Whether the runtime is as every runtime is that was made by `new`
    /// and changed by the functions of this type only.
    pub fn is_consistent(&self) -> (result: bool)
        ensures
            result == self.wf(),
    {
        match self {
            Runtime::Running { gpu, .. } => gpu.is_well_formed() && gpu.holds_record_of::<S>(),
            _ => true,
        }
    }

    /// The demo's state, while there is one.
    pub fn state(&self) -> (state: Option<S>)
        ensures
            state == match *self {
                Runtime::Uninitialized { state } => Some(state),
                Runtime::Initializing { state } => Some(state),
                Runtime::Running { state, .. } => Some(state),
                Runtime::Exiting { .. } => None,
            },
    {
        match self {
            Runtime::Uninitialized { state } => Some(*state),
            Runtime::Initializing { state } => Some(*state),
            Runtime::Running { state, .. } => Some(*state),
            Runtime::Exiting { .. } => None,
        }
    }

    /// The render context, while the loop runs.
    pub fn context(&self) -> (gpu: Option<GpuContext>)
        ensures
            gpu == match *self {
                Runtime::Running { gpu, .. } => Some(gpu),
                _ => None,
            },
    {
        match self {
            Runtime::Running { gpu, .. } => Some(*gpu),
            _ => None,
        }
    }

    /// Begins startup. A runtime that has not started yet now waits for
    /// the negotiation that is returned; any other stays as it is and
    /// nothing is to be negotiated.
    pub fn start(&mut self) -> (request: Option<Negotiation>)
        ensures
            *final(self) == old(self).started(),
            request == if *old(self) is Uninitialized {
                Some(negotiation())
            } else {
                None
            },
            old(self).wf() ==> final(self).wf(),
    {
        match self {
            Runtime::Uninitialized { state } => {
                let state: S = *state;
                *self = Runtime::Initializing { state };
                Some(
                    Negotiation {
                        adapter: GpuInstance::adapter_options(),
                        device: setup_device(),
                    },
                )
            },
            _ => None,
        }
    }

    /// Ends the negotiation with success: the adapter and the device were
    /// granted, and `capabilities` is what the adapter supports on the
    /// window's surface.
    ///
    /// A runtime that waits for this builds the demo's render context and
    /// runs from now on; the surface is to be configured at once. Where
    /// the adapter cannot present to the surface in any format, startup
    /// has failed and the loop ends. A runtime that does not wait for the
    /// negotiation ignores the call.
    pub fn attach(
        &mut self,
        window: &Window,
        capabilities: SurfaceCapabilities,
        shader_source: &'static str,
    ) -> (effects: Effects)
        requires
            old(self).wf(),
        ensures
            (*final(self), effects@) == old(self).attached(*window, capabilities, shader_source),
            final(self).wf(),
            effects@.configure matches Some(config) ==> config.is_drawable() && config
                == SurfaceConfiguration::for_size(window.inner_size),
    {
        match self {
            Runtime::Initializing { state } => {
                let state: S = *state;
                if capabilities.formats.len() > 0 {
                    let instance = GpuInstance::new(window, capabilities);
                    proof {
                        state.lemma_built(instance, shader_source);
                    }
                    let gpu = state.build(instance, shader_source);
                    *self = Runtime::Running { state, gpu };
                    Effects {
                        configure: Some(gpu.surface_config),
                        frame: None,
                        request_redraw: false,
                        exit: false,
                    }
                } else {
                    *self = Runtime::Exiting { cause: Exit::Failed(StartupError::NoAdapter) };
                    Effects::exit()
                }
            },
            _ => Effects::none(),
        }
    }

    /// Ends the loop for an error that startup cannot recover from.
    /// Nothing is retried and nothing more is drawn.
    pub fn fail(&mut self, error: StartupError) -> (effects: Effects)
        ensures
            (*final(self), effects@) == old(self).failed(error),
            *final(self) is Exiting,
            final(self).wf(),
    {
        match self {
            Runtime::Exiting { .. } => Effects::none(),
            _ => {
                *self = Runtime::Exiting { cause: Exit::Failed(error) };
                Effects::exit()
            },
        }
    }

    /// The expressions that the host has to evaluate before it hands
    /// `event` to `handle`.
    pub fn requests(&self, event: &Event, window: &Window) -> (exprs: Vec<Expr>)
        ensures
            exprs@ == self.requested(*event, *window),
    {
        match (self, event) {
            (Runtime::Running { state, .. }, Event::WindowEvent { window_id, event }) => {
                if *window_id == window.id {
                    state.requests(event, window)
                } else {
                    Vec::new()
                }
            },
            _ => Vec::new(),
        }
    }

    /// Handles one event. `evaluated` holds the values of the expressions
    /// that `requests` asked for, in the same order.
    ///
    /// The surface is never configured with a zero dimension, and a frame
    /// always carries exactly as many uniform bytes as one record of the
    /// state's type takes.
    pub fn handle(&mut self, event: &Event, evaluated: &Vec<u32>, window: &Window) -> (effects:
        Effects)
        requires
            old(self).wf(),
        ensures
            (*final(self), effects@) == old(self).step(*event, evaluated@, *window),
            final(self).wf(),
            effects@.configure matches Some(config) ==> config.is_drawable(),
            effects@.frame matches Some(frame) ==> frame.uniform_data.len() == record_size(
                S::layout(),
            ) && frame.surface.is_drawable(),
            *final(self) matches Runtime::Running { gpu, .. } ==> effects@.fits(gpu),
    {
        match (&mut *self, event) {
            (Runtime::Running { state, gpu }, Event::WindowEvent { window_id, event }) => {
                if *window_id != window.id {
                    return Effects::none();
                }
                proof {
                    Self::lemma_hooked(*state, *gpu, *event, evaluated@, *window);
                }
                let effects = match event {
                    WindowEvent::CloseRequested => {
                        let mut effects = state.on_close(window, gpu);
                        effects.exit = true;
                        effects
                    },
                    WindowEvent::KeyboardInput(input) => state.on_keyboard(
                        input,
                        evaluated,
                        window,
                        gpu,
                    ),
                    WindowEvent::MouseWheel(delta) => state.on_scroll(
                        *delta,
                        evaluated,
                        window,
                        gpu,
                    ),
                    WindowEvent::CursorMoved(position) => state.on_cursor_move(
                        *position,
                        evaluated,
                        window,
                        gpu,
                    ),
                    WindowEvent::Resized(new_size) => state.on_resize(*new_size, window, gpu),
                    WindowEvent::RedrawRequested => state.on_redraw(window, gpu),
                    WindowEvent::Other => Effects::none(),
                };
                if effects.exit {
                    *self = Runtime::Exiting { cause: Exit::Requested };
                }
                effects
            },
            _ => Effects::none(),
        }
    }

    /// Decides what follows a failed acquisition of a frame's texture:
    /// after the first, configure the surface anew from the window's size
    /// and acquire once more; after the second, and whenever the loop is
    /// not running, drop the frame.
    pub fn acquisition_failed(&mut self, failed: Acquisition, window: &Window) -> (recovery:
        Recovery)
        requires
            old(self).wf(),
        ensures
            (*final(self), recovery) == old(self).recovered(failed, *window),
            final(self).wf(),
            recovery matches Recovery::Reconfigure(config) ==> config.is_drawable(),
    {
        match self {
            Runtime::Running { gpu, .. } => gpu.recover(failed, window),
            _ => Recovery::SkipFrame,
        }
    }
}

/// The runtime after the first `count + 1` events of a sequence is the
/// runtime after the first `count`, one step on.
pub proof fn lemma_after_next<S: GpuApplication>(runtime: Runtime<S>, inputs: Seq<Input>, count: int)
    requires
        0 <= count < inputs.len(),
    ensures
        runtime.after(inputs.take(count + 1)) == runtime.after(inputs.take(count)).step(
            inputs[count].event,
            inputs[count].evaluated,
            inputs[count].window,
        ).0,
        runtime.after(inputs.take(inputs.len() as int)) == runtime.after(inputs),
{
    assert(inputs.take(count + 1).drop_last() == inputs.take(count));
    assert(inputs.take(count + 1).last() == inputs[count]);
    assert(inputs.take(inputs.len() as int) == inputs);
}

/// One event leaves a consistent runtime consistent, and its effects are
/// sound: the surface is not configured with a zero dimension, and a
/// frame is drawn to a surface that can be drawn to, with the fixed pass
/// and with exactly as many uniform bytes as one record of the state's
/// type takes.
pub proof fn lemma_step_is_sound<S: GpuApplication>(
    runtime: Runtime<S>,
    event: Event,
    evaluated: Seq<u32>,
    window: Window,
)
    requires
        runtime.wf(),
    ensures
        runtime.step(event, evaluated, window).0.wf(),
        runtime.step(event, evaluated, window).1.configure matches Some(config)
            ==> config.is_drawable(),
        runtime.step(event, evaluated, window).1.frame matches Some(frame) ==> {
            &&& frame.uniform_data.len() == record_size(S::layout())
            &&& frame.surface.is_drawable()
            &&& frame.pass == frame_pass()
        },
{
    match (runtime, event) {
        (Runtime::Running { state, gpu }, Event::WindowEvent { window_id, event }) => {
            if window_id == window.id {
                Runtime::<S>::lemma_hooked(state, gpu, event, evaluated, window);
            }
        },
        _ => {},
    }
}

/// Startup, failure and recovery leave a consistent runtime consistent,
/// and configure the surface with no zero dimension.
pub proof fn lemma_transitions_are_sound<S: GpuApplication>(
    runtime: Runtime<S>,
    window: Window,
    capabilities: SurfaceCapabilities,
    shader_source: &'static str,
    error: StartupError,
    failed: Acquisition,
)
    requires
        runtime.wf(),
    ensures
        runtime.started().wf(),
        runtime.attached(window, capabilities, shader_source).0.wf(),
        runtime.attached(window, capabilities, shader_source).1.configure matches Some(config)
            ==> config.is_drawable(),
        runtime.failed(error).0.wf(),
        runtime.recovered(failed, window).0.wf(),
        runtime.recovered(failed, window).1 matches Recovery::Reconfigure(config)
            ==> config.is_drawable(),
{
    if let Runtime::Initializing { state } = runtime {
        if capabilities.formats@.len() > 0 {
            let instance = GpuInstance {
                surface_config: SurfaceConfiguration::for_size(window.inner_size),
                capabilities,
            };
            state.lemma_built(instance, shader_source);
        }
    }
}

/// A consistent runtime stays consistent through every sequence of
/// events.
pub proof fn lemma_stays_consistent<S: GpuApplication>(runtime: Runtime<S>, inputs: Seq<Input>)
    requires
        runtime.wf(),
    ensures
        runtime.after(inputs).wf(),
    decreases inputs.len(),
{
    if inputs.len() > 0 {
        let last = inputs.last();
        lemma_stays_consistent(runtime, inputs.drop_last());
        lemma_step_is_sound(
            runtime.after(inputs.drop_last()),
            last.event,
            last.evaluated,
            last.window,
        );
    }
}

/// In every run of a consistent runtime, no event has the surface
/// configured with a zero dimension, and every frame carries exactly as
/// many uniform bytes as one record of the state's type takes.
pub proof fn lemma_effects_are_sound<S: GpuApplication>(
    runtime: Runtime<S>,
    inputs: Seq<Input>,
    index: int,
)
    requires
        runtime.wf(),
        0 <= index < inputs.len(),
    ensures
        runtime.effects_at(inputs, index).configure matches Some(config) ==> config.is_drawable(),
        runtime.effects_at(inputs, index).frame matches Some(frame) ==> {
            &&& frame.uniform_data.len() == record_size(S::layout())
            &&& frame.surface.is_drawable()
            &&& frame.pass == frame_pass()
        },
{
    lemma_stays_consistent(runtime, inputs.take(index));
    lemma_step_is_sound(
        runtime.after(inputs.take(index)),
        inputs[index].event,
        inputs[index].evaluated,
        inputs[index].window,
    );
}

/// The end is final: once the loop has ended, no event changes the
/// runtime and no event has an effect.
pub proof fn lemma_exiting_is_final<S: GpuApplication>(
    runtime: Runtime<S>,
    inputs: Seq<Input>,
    ended: int,
    later: int,
)
    requires
        0 <= ended <= later <= inputs.len(),
        runtime.after(inputs.take(ended)) is Exiting,
    ensures
        runtime.after(inputs.take(later)) == runtime.after(inputs.take(ended)),
        later < inputs.len() ==> runtime.effects_at(inputs, later) == EffectsView::none(),
    decreases later - ended,
{
    if ended < later {
        lemma_exiting_is_final(runtime, inputs, ended, later - 1);
        lemma_after_next(runtime, inputs, later - 1);
    }
}

/// A request to close the window always ends the loop: the host is told
/// to leave, and no later event is handled. In particular nothing is
/// drawn after it.
pub proof fn lemma_close_ends_loop<S: GpuApplication>(
    runtime: Runtime<S>,
    inputs: Seq<Input>,
    closing: int,
    later: int,
)
    requires
        0 <= closing < later < inputs.len(),
        runtime.after(inputs.take(closing)) is Running,
        inputs[closing].event == (Event::WindowEvent {
            window_id: inputs[closing].window.id,
            event: WindowEvent::CloseRequested,
        }),
    ensures
        runtime.effects_at(inputs, closing).exit,
        runtime.after(inputs.take(closing + 1)) is Exiting,
        runtime.after(inputs.take(later)) is Exiting,
        runtime.effects_at(inputs, later) == EffectsView::none(),
        runtime.effects_at(inputs, later).frame is None,
        runtime.after(inputs) is Exiting,
{
    lemma_after_next(runtime, inputs, closing);
    lemma_exiting_is_final(runtime, inputs, closing + 1, later);
    lemma_exiting_is_final(runtime, inputs, closing + 1, inputs.len() as int);
}

/// Before the loop runs, and for events of other windows, nothing is
/// handled: the runtime stays as it is and nothing is drawn.
pub proof fn lemma_only_own_events<S: GpuApplication>(
    runtime: Runtime<S>,
    event: Event,
    evaluated: Seq<u32>,
    window: Window,
)
    requires
        !runtime.dispatches(event, window),
    ensures
        runtime.step(event, evaluated, window) == (runtime, EffectsView::none()),
        runtime.requested(event, window) == Seq::<Expr>::empty(),
{
}

} // verus!
