//! The render context: one pipeline, one bind group, one uniform buffer,
//! and the surface they draw to.
//!
//! The context holds what the runtime decides about these resources. The
//! host creates them on the device as described here, and performs the
//! frames that [`GpuContext::render`] records.
use crate::event::{PhysicalSize, Window, clamped};
use crate::gpu::instance::{DeviceDescriptor, GpuInstance, Limits, SurfaceCapabilities};
use crate::layout::{FieldKind, ShaderType, encode, lemma_encoded_length, record_size};
use vstd::prelude::*;
use vstd::slice::slice_to_vec;

verus! {

/// The binding slot of the uniform buffer, in bind group 0.
pub const UNIFORM_BINDING: u32 = 0;

/// The index at which the bind group is set for a draw.
pub const BIND_GROUP_INDEX: u32 = 0;

/// `0.0` as a binary64 bit pattern.
pub const F64_ZERO: u64 = 0;

/// `1.0` as a binary64 bit pattern.
pub const F64_ONE: u64 = 0x3ff0_0000_0000_0000;

/// Shader source text and the names of its two entry points.
#[derive(Clone, Copy, Debug, PartialEq, Eq)]
pub struct GpuShaderConfig<'a> {
    pub src: &'static str,
    pub vertex_entry: &'a str,
    pub fragment_entry: &'a str,
}

/// The part of a surface's configuration that the runtime decides: its
/// size in pixels. Format and present mode are the adapter's defaults.
#[derive(Clone, Copy, Debug, PartialEq, Eq)]
pub struct SurfaceConfiguration {
    pub width: u32,
    pub height: u32,
}

/// A buffer to create on the device.
#[derive(Clone, Copy, Debug, PartialEq, Eq)]
pub struct BufferDescriptor {
    /// Its length in bytes.
    pub size: u64,
    /// Usable as a uniform binding.
    pub uniform: bool,
    /// Usable as the destination of a copy or a write.
    pub copy_dst: bool,
    pub mapped_at_creation: bool,
}

/// A bind group layout with a single entry, a uniform buffer.
#[derive(Clone, Copy, Debug, PartialEq, Eq)]
pub struct BindGroupLayout {
    pub binding: u32,
    pub visible_to_vertex: bool,
    pub visible_to_fragment: bool,
    pub has_dynamic_offset: bool,
}

/// A bind group with a single entry: a range of the uniform buffer.
#[derive(Clone, Copy, Debug, PartialEq, Eq)]
pub struct BindGroup {
    pub binding: u32,
    pub offset: u64,
    pub size: u64,
}

/// A render pipeline to create on the device.
#[derive(Clone, Copy, Debug, PartialEq, Eq)]
pub struct RenderPipeline {
    /// The only bind group layout of the pipeline's layout.
    pub bind_group_layout: BindGroupLayout,
    pub vertex_entry: &'static str,
    pub fragment_entry: &'static str,
    /// The number of vertex buffers. Vertices come from the vertex index.
    pub vertex_buffers: u32,
    /// The format of the only color target.
    pub target_format: u32,
    pub depth_stencil: bool,
}

/// A color, each channel a binary64 bit pattern.
#[derive(Clone, Copy, Debug, PartialEq, Eq)]
pub struct Color {
    pub r: u64,
    pub g: u64,
    pub b: u64,
    pub a: u64,
}

/// The single render pass of a frame.
#[derive(Clone, Copy, Debug, PartialEq, Eq)]
pub struct RenderPass {
    /// Where in the uniform buffer the frame's bytes are written.
    pub uniform_offset: u64,
    /// The color attachment is cleared to this color when the pass begins.
    pub clear_color: Color,
    /// What the pass draws is kept in the color attachment.
    pub store: bool,
    pub depth_stencil: bool,
    /// The index at which the bind group is set.
    pub bind_group_index: u32,
    pub first_vertex: u32,
    pub vertex_count: u32,
    pub first_instance: u32,
    pub instance_count: u32,
}

/// One frame: acquire the surface's next texture, write the uniform bytes,
/// run the pass, submit, present.
#[derive(Clone, Debug, PartialEq, Eq)]
pub struct Frame {
    /// The configuration the surface has when the frame is drawn.
    pub surface: SurfaceConfiguration,
    pub uniform_data: Vec<u8>,
    pub pass: RenderPass,
}

/// A frame, its bytes as a sequence.
pub struct FrameView {
    pub surface: SurfaceConfiguration,
    pub uniform_data: Seq<u8>,
    pub pass: RenderPass,
}

impl View for Frame {
    type V = FrameView;

    open spec fn view(&self) -> FrameView {
        FrameView { surface: self.surface, uniform_data: self.uniform_data@, pass: self.pass }
    }
}

/// Which acquisition of a frame's texture failed.
#[derive(Clone, Copy, Debug, PartialEq, Eq)]
pub enum Acquisition {
    /// The first of the frame.
    First,
    /// The one after the surface was configured anew.
    Retry,
}

/// What follows a failed acquisition.
#[derive(Clone, Copy, Debug, PartialEq, Eq)]
pub enum Recovery {
    /// Configure the surface to this, then acquire once more.
    Reconfigure(SurfaceConfiguration),
    /// Draw nothing, and wait for the next request to redraw.
    SkipFrame,
}

/// What the runtime holds of the render context.
#[derive(Clone, Copy, Debug, PartialEq, Eq)]
pub struct GpuContext {
    pub surface_config: SurfaceConfiguration,
    /// The source text of the pipeline's shader module.
    pub shader_source: &'static str,
    pub pipeline: RenderPipeline,
    pub bind_group: BindGroup,
    pub uniform_buffer: BufferDescriptor,
}

/// The pass that every frame runs: clear to opaque black and keep what is
/// drawn, no depth or stencil, the bind group at index 0, three vertices,
/// one instance.
pub open spec fn frame_pass() -> RenderPass {
    RenderPass {
        uniform_offset: 0,
        clear_color: Color { r: F64_ZERO, g: F64_ZERO, b: F64_ZERO, a: F64_ONE },
        store: true,
        depth_stencil: false,
        bind_group_index: BIND_GROUP_INDEX,
        first_vertex: 0,
        vertex_count: 3,
        first_instance: 0,
        instance_count: 1,
    }
}

/// The uniform buffer for a record of `size` bytes.
pub open spec fn uniform_buffer_for(size: u64) -> BufferDescriptor {
    BufferDescriptor { size, uniform: true, copy_dst: true, mapped_at_creation: false }
}

/// The layout of the bind group: the uniform buffer at slot 0, visible to
/// the vertex and the fragment stage.
pub open spec fn uniform_layout() -> BindGroupLayout {
    BindGroupLayout {
        binding: UNIFORM_BINDING,
        visible_to_vertex: true,
        visible_to_fragment: true,
        has_dynamic_offset: false,
    }
}

/// The bind group: all of `buffer`, at slot 0.
pub open spec fn bind_group_for(buffer: BufferDescriptor) -> BindGroup {
    BindGroup { binding: UNIFORM_BINDING, offset: 0, size: buffer.size }
}

/// The pipeline for a shader's entry points and a surface's formats.
pub open spec fn pipeline_for(
    layout: BindGroupLayout,
    entrypoints: (&'static str, &'static str),
    formats: Seq<u32>,
) -> RenderPipeline {
    RenderPipeline {
        bind_group_layout: layout,
        vertex_entry: entrypoints.0,
        fragment_entry: entrypoints.1,
        vertex_buffers: 0,
        target_format: formats[0],
        depth_stencil: false,
    }
}

impl SurfaceConfiguration {
    /// Neither dimension is zero.
    pub open spec fn is_drawable(self) -> bool {
        self.width >= 1 && self.height >= 1
    }

    /// The configuration for a window of this size: the size itself, each
    /// zero dimension raised to one.
    pub open spec fn for_size(size: PhysicalSize) -> SurfaceConfiguration {
        SurfaceConfiguration { width: clamped(size.width), height: clamped(size.height) }
    }

    /// The configuration for a window of this size.
    pub fn new(size: PhysicalSize) -> (config: SurfaceConfiguration)
        ensures
            config == Self::for_size(size),
            config.is_drawable(),
    {
        let size = size.clamp();
        SurfaceConfiguration { width: size.width, height: size.height }
    }
}

/// The device is requested with no optional feature and with the limits
/// of the most constrained environment.
pub fn setup_device() -> (descriptor: DeviceDescriptor)
    ensures
        descriptor == (DeviceDescriptor {
            optional_features: false,
            required_limits: Limits::DownlevelWebgl2,
        }),
{
    DeviceDescriptor { optional_features: false, required_limits: Limits::DownlevelWebgl2 }
}

/// The bind group for a uniform buffer, and its layout. Both name the
/// same slot.
pub fn setup_bind_group(buffer: &BufferDescriptor) -> (result: (BindGroup, BindGroupLayout))
    ensures
        result.0 == bind_group_for(*buffer),
        result.1 == uniform_layout(),
        result.0.binding == result.1.binding,
{
    let layout = BindGroupLayout {
        binding: UNIFORM_BINDING,
        visible_to_vertex: true,
        visible_to_fragment: true,
        has_dynamic_offset: false,
    };
    let bind_group = BindGroup { binding: UNIFORM_BINDING, offset: 0, size: buffer.size };
    (bind_group, layout)
}

/// The render pipeline: the given layout, the shader's two entry points,
/// no vertex buffer, no depth or stencil, and as its target the first of
/// the formats that the surface supports.
pub fn setup_pipeline(
    bind_group_layout: &BindGroupLayout,
    shader_entrypoints: (&'static str, &'static str),
    swapchain_capabilities: &SurfaceCapabilities,
) -> (pipeline: RenderPipeline)
    requires
        swapchain_capabilities.formats@.len() > 0,
    ensures
        pipeline == pipeline_for(
            *bind_group_layout,
            shader_entrypoints,
            swapchain_capabilities.formats@,
        ),
{
    RenderPipeline {
        bind_group_layout: *bind_group_layout,
        vertex_entry: shader_entrypoints.0,
        fragment_entry: shader_entrypoints.1,
        vertex_buffers: 0,
        target_format: swapchain_capabilities.formats[0],
        depth_stencil: false,
    }
}

impl GpuContext {
    /// The context's resources fit together: the surface can be drawn to,
    /// the uniform buffer is not empty and can be bound and written, and
    /// the bind group, its layout and the pipeline's layout all name the
    /// buffer's slot.
    pub open spec fn wf(self) -> bool {
        &&& self.surface_config.is_drawable()
        &&& self.uniform_buffer.size > 0
        &&& self.uniform_buffer == uniform_buffer_for(self.uniform_buffer.size)
        &&& self.bind_group == bind_group_for(self.uniform_buffer)
        &&& self.pipeline.bind_group_layout == uniform_layout()
        &&& self.pipeline.vertex_buffers == 0
        &&& !self.pipeline.depth_stencil
    }

    /// The uniform buffer holds exactly one record with these fields.
    pub open spec fn serves(self, kinds: Seq<FieldKind>) -> bool {
        self.uniform_buffer.size == record_size(kinds)
    }

    /// The context that `new` builds for a record of `size` bytes.
    pub open spec fn built(
        instance: GpuInstance,
        shader_config: GpuShaderConfig<'static>,
        size: u64,
    ) -> GpuContext {
        GpuContext {
            surface_config: instance.surface_config,
            shader_source: shader_config.src,
            pipeline: pipeline_for(
                uniform_layout(),
                (shader_config.vertex_entry, shader_config.fragment_entry),
                instance.capabilities.formats@,
            ),
            bind_group: bind_group_for(uniform_buffer_for(size)),
            uniform_buffer: uniform_buffer_for(size),
        }
    }

    /// The context after a resize.
    pub open spec fn resized(self, new_size: PhysicalSize) -> GpuContext {
        GpuContext { surface_config: SurfaceConfiguration::for_size(new_size), ..self }
    }

    /// The frame that `render` records for these bytes.
    pub open spec fn frame(self, uniform_data: Seq<u8>) -> FrameView {
        FrameView { surface: self.surface_config, uniform_data, pass: frame_pass() }
    }

    /// The context after an acquisition failed, and what to do next.
    pub open spec fn recovered(self, failed: Acquisition, window: Window) -> (GpuContext, Recovery) {
        match failed {
            Acquisition::First => (
                self.resized(window.inner_size),
                Recovery::Reconfigure(SurfaceConfiguration::for_size(window.inner_size)),
            ),
            Acquisition::Retry => (self, Recovery::SkipFrame),
        }
    }

    /// Whether the context's resources fit together.
    pub fn is_well_formed(&self) -> (result: bool)
        ensures
            result == self.wf(),
    {
        let buffer = &self.uniform_buffer;
        let layout = &self.pipeline.bind_group_layout;
        self.surface_config.width >= 1 && self.surface_config.height >= 1 && buffer.size > 0
            && buffer.uniform && buffer.copy_dst && !buffer.mapped_at_creation
            && self.bind_group.binding == UNIFORM_BINDING && self.bind_group.offset == 0
            && self.bind_group.size == buffer.size && layout.binding == UNIFORM_BINDING
            && layout.visible_to_vertex && layout.visible_to_fragment
            && !layout.has_dynamic_offset && self.pipeline.vertex_buffers == 0
            && !self.pipeline.depth_stencil
    }

    /// Whether the uniform buffer holds exactly one record of an `S`.
    pub fn holds_record_of<S: ShaderType>(&self) -> (result: bool)
        ensures
            result == self.serves(S::layout()),
    {
        self.uniform_buffer.size == S::uniform_size() as u64
    }

    /// Takes the window's new size, each zero dimension raised to one. The
    /// surface has to be configured to it before the next frame.
    pub fn resize(&mut self, new_size: PhysicalSize)
        ensures
            *final(self) == old(self).resized(new_size),
            final(self).surface_config.is_drawable(),
            old(self).wf() ==> final(self).wf(),
    {
        self.surface_config = SurfaceConfiguration::new(new_size);
    }

    /// Records the frame that draws with `uniform_data`: the bytes go to
    /// the start of the uniform buffer, then the one pass runs.
    pub fn render(&self, uniform_data: &[u8]) -> (frame: Frame)
        requires
            uniform_data@.len() == self.uniform_buffer.size,
        ensures
            frame@ == self.frame(uniform_data@),
    {
        Frame {
            surface: self.surface_config,
            uniform_data: slice_to_vec(uniform_data),
            pass: RenderPass {
                uniform_offset: 0,
                clear_color: Color { r: F64_ZERO, g: F64_ZERO, b: F64_ZERO, a: F64_ONE },
                store: true,
                depth_stencil: false,
                bind_group_index: BIND_GROUP_INDEX,
                first_vertex: 0,
                vertex_count: 3,
                first_instance: 0,
                instance_count: 1,
            },
        }
    }

    /// Builds the context of a demo whose state is an `S`: the surface as
    /// the instance configured it, a uniform buffer of exactly the size of
    /// one record of `S`, the bind group over all of it, and the pipeline
    /// for the shader.
    pub fn new<S: ShaderType>(instance: GpuInstance, shader_config: GpuShaderConfig<'static>) -> (gpu:
        GpuContext)
        requires
            instance.surface_config.is_drawable(),
            instance.capabilities.formats@.len() > 0,
        ensures
            gpu == Self::built(instance, shader_config, record_size(S::layout()) as u64),
            gpu.wf(),
            gpu.serves(S::layout()),
    {
        let uniform_buffer = BufferDescriptor {
            size: S::uniform_size() as u64,
            uniform: true,
            copy_dst: true,
            mapped_at_creation: false,
        };
        let (bind_group, bind_group_layout) = setup_bind_group(&uniform_buffer);
        let pipeline = setup_pipeline(
            &bind_group_layout,
            (shader_config.vertex_entry, shader_config.fragment_entry),
            &instance.capabilities,
        );
        GpuContext {
            surface_config: instance.surface_config,
            shader_source: shader_config.src,
            pipeline,
            bind_group,
            uniform_buffer,
        }
    }

    /// Decides what follows a failed acquisition of the frame's texture.
    /// After the first failure the surface is configured anew from the
    /// window's size and the acquisition is tried once more; after the
    /// second the frame is dropped.
    pub fn recover(&mut self, failed: Acquisition, window: &Window) -> (recovery: Recovery)
        ensures
            (*final(self), recovery) == old(self).recovered(failed, *window),
            recovery matches Recovery::Reconfigure(config) ==> config.is_drawable() && config
                == final(self).surface_config,
            old(self).wf() ==> final(self).wf(),
    {
        match failed {
            Acquisition::First => {
                self.resize(window.inner_size);
                Recovery::Reconfigure(self.surface_config)
            },
            Acquisition::Retry => Recovery::SkipFrame,
        }
    }
}

/// A surface never gets a zero dimension: whatever size a window reports,
/// the context takes a size of at least one by one, a window of no extent
/// gives exactly one by one, and a dimension that is not zero is taken as
/// it is.
pub proof fn lemma_resize_clamps(gpu: GpuContext, new_size: PhysicalSize)
    ensures
        gpu.resized(new_size).surface_config.is_drawable(),
        gpu.resized(PhysicalSize { width: 0, height: 0 }).surface_config == (SurfaceConfiguration {
            width: 1,
            height: 1,
        }),
        new_size.is_drawable() ==> gpu.resized(new_size).surface_config == (SurfaceConfiguration {
            width: new_size.width,
            height: new_size.height,
        }),
{
}

/// Recovery from a failed acquisition configures the surface to the
/// context's new configuration, which has no zero dimension, and does so
/// at most once for a frame.
pub proof fn lemma_recovery_clamps(gpu: GpuContext, failed: Acquisition, window: Window)
    ensures
        gpu.recovered(failed, window).0.surface_config.is_drawable() || gpu.recovered(
            failed,
            window,
        ).0 == gpu,
        gpu.recovered(failed, window).1 matches Recovery::Reconfigure(config) ==> {
            &&& failed == Acquisition::First
            &&& config.is_drawable()
            &&& config == gpu.recovered(failed, window).0.surface_config
        },
        failed == Acquisition::Retry ==> gpu.recovered(failed, window) == (gpu, Recovery::SkipFrame),
{
}

/// The bytes of a record fill the uniform buffer of a context built for
/// its type exactly, whatever the record holds.
pub proof fn lemma_record_fills_buffer<S: ShaderType>(
    value: S,
    instance: GpuInstance,
    shader_config: GpuShaderConfig<'static>,
)
    ensures
        encode(value.record()).len() == GpuContext::built(
            instance,
            shader_config,
            record_size(S::layout()) as u64,
        ).uniform_buffer.size,
{
    value.lemma_record();
    lemma_encoded_length(value.record(), value.record().len() as int);
}

} // verus!
