//! What a demo's state has to provide, and what its hooks may ask of the
//! host.
use crate::event::{KeyEvent, MouseScrollDelta, PhysicalPosition, PhysicalSize, Window, WindowEvent};
use crate::expr::Expr;
use crate::gpu::context::{Frame, FrameView, GpuContext, SurfaceConfiguration, frame_pass};
use crate::gpu::instance::GpuInstance;
use crate::layout::{
    LayoutError,
    ShaderType,
    UniformValue,
    encode,
    lemma_fixed_size,
    record_size,
    write_uniform,
};
use vstd::prelude::*;

verus! {

/// What the host is to do after an event was handled, in this order:
/// configure the surface, draw the frame, request a redraw, leave the
/// event loop.
#[derive(Clone, Debug, PartialEq, Eq)]
pub struct Effects {
    /// Configure the surface to this.
    pub configure: Option<SurfaceConfiguration>,
    /// Draw this frame.
    pub frame: Option<Frame>,
    /// Ask the window for a redraw.
    pub request_redraw: bool,
    /// Leave the event loop.
    pub exit: bool,
}

/// Effects, the frame's bytes as a sequence.
pub struct EffectsView {
    pub configure: Option<SurfaceConfiguration>,
    pub frame: Option<FrameView>,
    pub request_redraw: bool,
    pub exit: bool,
}

impl View for Effects {
    type V = EffectsView;

    open spec fn view(&self) -> EffectsView {
        EffectsView {
            configure: self.configure,
            frame: match self.frame {
                Some(frame) => Some(frame@),
                None => None,
            },
            request_redraw: self.request_redraw,
            exit: self.exit,
        }
    }
}

impl EffectsView {
    /// Nothing to do.
    pub open spec fn none() -> EffectsView {
        EffectsView { configure: None, frame: None, request_redraw: false, exit: false }
    }

    /// Ask for a redraw, nothing else.
    pub open spec fn redraw() -> EffectsView {
        EffectsView { request_redraw: true, ..Self::none() }
    }

    /// Leave the event loop, nothing else.
    pub open spec fn exit() -> EffectsView {
        EffectsView { exit: true, ..Self::none() }
    }

    /// The effects agree with the context they were decided for: a
    /// surface is only ever configured to the context's configuration,
    /// which has no zero dimension, and a frame is drawn to the surface as
    /// it is configured, with the fixed pass and with exactly as many
    /// uniform bytes as the uniform buffer holds.
    pub open spec fn fits(self, gpu: GpuContext) -> bool {
        &&& self.configure matches Some(config) ==> config.is_drawable() && config
            == gpu.surface_config
        &&& self.frame matches Some(frame) ==> {
            &&& frame.surface == gpu.surface_config
            &&& frame.uniform_data.len() == gpu.uniform_buffer.size
            &&& frame.pass == frame_pass()
        }
    }
}

impl Effects {
    /// Nothing to do.
    pub fn none() -> (effects: Effects)
        ensures
            effects@ == EffectsView::none(),
    {
        Effects { configure: None, frame: None, request_redraw: false, exit: false }
    }

    /// Ask for a redraw, nothing else.
    pub fn redraw() -> (effects: Effects)
        ensures
            effects@ == EffectsView::redraw(),
    {
        Effects { configure: None, frame: None, request_redraw: true, exit: false }
    }

    /// Leave the event loop, nothing else.
    pub fn exit() -> (effects: Effects)
        ensures
            effects@ == EffectsView::exit(),
    {
        Effects { configure: None, frame: None, request_redraw: false, exit: true }
    }
}

/// What closing does unless a demo decides otherwise: leave the loop.
pub open spec fn closed_by_default() -> EffectsView {
    EffectsView::exit()
}

/// What a resize does unless a demo decides otherwise: the context takes
/// the new size, the surface is configured to it, and a redraw is asked
/// for.
pub open spec fn resized_by_default(new_size: PhysicalSize, gpu: GpuContext) -> (
    GpuContext,
    EffectsView,
) {
    (
        gpu.resized(new_size),
        EffectsView {
            configure: Some(gpu.resized(new_size).surface_config),
            request_redraw: true,
            ..EffectsView::none()
        },
    )
}

/// What a redraw does unless a demo decides otherwise: draw one frame
/// with the state's record as uniform bytes.
pub open spec fn redrawn_by_default(record: Seq<UniformValue>, gpu: GpuContext) -> EffectsView {
    EffectsView { frame: Some(gpu.frame(encode(record))), ..EffectsView::none() }
}

/// The default reaction to a request to close.
pub fn default_on_close() -> (effects: Effects)
    ensures
        effects@ == closed_by_default(),
{
    Effects::exit()
}

/// The default reaction to a resize.
pub fn default_on_resize(new_size: PhysicalSize, gpu: &mut GpuContext) -> (effects: Effects)
    ensures
        (*final(gpu), effects@) == resized_by_default(new_size, *old(gpu)),
        old(gpu).wf() ==> final(gpu).wf(),
        final(gpu).uniform_buffer == old(gpu).uniform_buffer,
        effects@.fits(*final(gpu)),
{
    gpu.resize(new_size);
    Effects {
        configure: Some(gpu.surface_config),
        frame: None,
        request_redraw: true,
        exit: false,
    }
}

/// The default reaction to a request to redraw.
pub fn default_on_redraw<S: ShaderType>(state: &S, gpu: &GpuContext) -> (effects: Effects)
    requires
        gpu.serves(S::layout()),
    ensures
        effects@ == redrawn_by_default(state.record(), *gpu),
        effects@.fits(*gpu),
{
    let bytes = write_uniform(state).unwrap();
    let frame = gpu.render(bytes.as_slice());
    Effects { configure: None, frame: Some(frame), request_redraw: false, exit: false }
}

/// The state of a demo: a small record that is copied freely, is written
/// to the uniform buffer in the fixed layout of its [`ShaderType`], and
/// reacts to the window's events.
///
/// A hook changes the state, and the context where it is handed one to
/// change, and returns what the host is to do. What a hook does is a
/// function of its arguments, given by the spec function beside it. The
/// floating-point results that a hook needs are evaluated by the host
/// before the hook runs: `requests` says which, and the hook takes them as
/// `evaluated`, in the same order.
pub trait GpuApplication: ShaderType {
    /// The record as uniform bytes. Never fails, and the bytes are as many
    /// as a record of this type takes, whatever the state.
    fn as_wgsl_bytes(&self) -> (result: Result<Vec<u8>, LayoutError>)
        ensures
            result matches Ok(bytes) && bytes@ == encode(self.record()) && bytes@.len()
                == record_size(Self::layout()),
    {
        write_uniform(self)
    }

    /// The render context that `build` builds.
    spec fn built(self, instance: GpuInstance, shader_source: &'static str) -> GpuContext;

    /// Builds the render context for this demo from the negotiated
    /// instance and the demo's shader.
    fn build(self, instance: GpuInstance, shader_source: &'static str) -> (gpu: GpuContext)
        requires
            instance.surface_config.is_drawable(),
            instance.capabilities.formats@.len() > 0,
        ensures
            gpu == self.built(instance, shader_source),
    ;

    /// What `build` builds fits together, holds exactly one record of the
    /// state's type in its uniform buffer, and keeps the surface as the
    /// instance configured it.
    proof fn lemma_built(self, instance: GpuInstance, shader_source: &'static str)
        requires
            instance.surface_config.is_drawable(),
            instance.capabilities.formats@.len() > 0,
        ensures
            self.built(instance, shader_source).wf(),
            self.built(instance, shader_source).serves(Self::layout()),
            self.built(instance, shader_source).surface_config == instance.surface_config,
    ;

    /// Whatever a hook does, its effects agree with the context, and a
    /// hook that changes the context leaves it fit for the state: no hook
    /// has the surface configured with a zero dimension, and no hook has a
    /// frame drawn with more or fewer bytes than the uniform buffer holds.
    proof fn lemma_hooks(
        self,
        window: Window,
        gpu: GpuContext,
        new_size: PhysicalSize,
        input: KeyEvent,
        position: PhysicalPosition,
        delta: MouseScrollDelta,
        evaluated: Seq<u32>,
    )
        requires
            gpu.wf(),
            gpu.serves(Self::layout()),
        ensures
            self.closed(window, gpu).1.fits(gpu),
            self.redrawn(window, gpu).1.fits(gpu),
            self.keyed(input, evaluated, window, gpu).1.fits(gpu),
            self.cursor_moved(position, evaluated, window, gpu).1.fits(gpu),
            self.scrolled(delta, evaluated, window, gpu).1.fits(gpu),
            self.resized(new_size, window, gpu).1.wf(),
            self.resized(new_size, window, gpu).1.serves(Self::layout()),
            self.resized(new_size, window, gpu).2.fits(self.resized(new_size, window, gpu).1),
    ;

    /// The expressions to evaluate before `event` is handled.
    spec fn requested(self, event: WindowEvent, window: Window) -> Seq<Expr>;

    /// The expressions to evaluate before `event` is handled.
    fn requests(&self, event: &WindowEvent, window: &Window) -> (exprs: Vec<Expr>)
        ensures
            exprs@ == self.requested(*event, *window),
    ;

    /// The state after a request to close, and the effects.
    spec fn closed(self, window: Window, gpu: GpuContext) -> (Self, EffectsView);

    /// The window was asked to close.
    fn on_close(&mut self, window: &Window, gpu: &GpuContext) -> (effects: Effects)
        requires
            gpu.wf(),
            gpu.serves(Self::layout()),
        ensures
            (*final(self), effects@) == old(self).closed(*window, *gpu),
    ;

    /// The state and the context after a resize, and the effects.
    spec fn resized(self, new_size: PhysicalSize, window: Window, gpu: GpuContext) -> (
        Self,
        GpuContext,
        EffectsView,
    );

    /// The window has a new size.
    fn on_resize(&mut self, new_size: PhysicalSize, window: &Window, gpu: &mut GpuContext) -> (effects:
        Effects)
        requires
            old(gpu).wf(),
            old(gpu).serves(Self::layout()),
        ensures
            (*final(self), *final(gpu), effects@) == old(self).resized(
                new_size,
                *window,
                *old(gpu),
            ),
    ;

    /// The state after a request to redraw, and the effects.
    spec fn redrawn(self, window: Window, gpu: GpuContext) -> (Self, EffectsView);

    /// The window asked to be drawn.
    fn on_redraw(&mut self, window: &Window, gpu: &GpuContext) -> (effects: Effects)
        requires
            gpu.wf(),
            gpu.serves(Self::layout()),
        ensures
            (*final(self), effects@) == old(self).redrawn(*window, *gpu),
    ;

    /// The state after a key was pressed or released, and the effects.
    spec fn keyed(self, input: KeyEvent, evaluated: Seq<u32>, window: Window, gpu: GpuContext) -> (
        Self,
        EffectsView,
    );

    /// A key was pressed or released.
    fn on_keyboard(
        &mut self,
        input: &KeyEvent,
        evaluated: &Vec<u32>,
        window: &Window,
        gpu: &GpuContext,
    ) -> (effects: Effects)
        requires
            gpu.wf(),
            gpu.serves(Self::layout()),
        ensures
            (*final(self), effects@) == old(self).keyed(*input, evaluated@, *window, *gpu),
    ;

    /// The state after the cursor moved, and the effects.
    spec fn cursor_moved(
        self,
        position: PhysicalPosition,
        evaluated: Seq<u32>,
        window: Window,
        gpu: GpuContext,
    ) -> (Self, EffectsView);

    /// The cursor moved over the window.
    fn on_cursor_move(
        &mut self,
        position: PhysicalPosition,
        evaluated: &Vec<u32>,
        window: &Window,
        gpu: &GpuContext,
    ) -> (effects: Effects)
        requires
            gpu.wf(),
            gpu.serves(Self::layout()),
        ensures
            (*final(self), effects@) == old(self).cursor_moved(
                position,
                evaluated@,
                *window,
                *gpu,
            ),
    ;

    /// The state after the wheel turned, and the effects.
    spec fn scrolled(
        self,
        delta: MouseScrollDelta,
        evaluated: Seq<u32>,
        window: Window,
        gpu: GpuContext,
    ) -> (Self, EffectsView);

    /// The wheel turned, or the touchpad scrolled.
    fn on_scroll(
        &mut self,
        delta: MouseScrollDelta,
        evaluated: &Vec<u32>,
        window: &Window,
        gpu: &GpuContext,
    ) -> (effects: Effects)
        requires
            gpu.wf(),
            gpu.serves(Self::layout()),
        ensures
            (*final(self), effects@) == old(self).scrolled(delta, evaluated@, *window, *gpu),
    ;
}

/// For every type of state, the bytes of any state are exactly as many as
/// the uniform buffer of a context built for the type holds.
pub proof fn lemma_buffer_holds_every_state<S: GpuApplication>(
    builder: S,
    state: S,
    instance: GpuInstance,
    shader_source: &'static str,
)
    requires
        instance.surface_config.is_drawable(),
        instance.capabilities.formats@.len() > 0,
    ensures
        encode(state.record()).len() == builder.built(
            instance,
            shader_source,
        ).uniform_buffer.size,
{
    builder.lemma_built(instance, shader_source);
    lemma_fixed_size(state, state);
}

} // verus!
