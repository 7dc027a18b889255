//! What startup negotiates with the graphics backend.
use crate::event::Window;
use crate::gpu::context::SurfaceConfiguration;
use vstd::prelude::*;

verus! {

/// Which adapter to prefer where several are compatible.
#[derive(Clone, Copy, Debug, PartialEq, Eq)]
pub enum PowerPreference {
    LowPower,
    HighPerformance,
}

/// How the adapter is requested.
#[derive(Clone, Copy, Debug, PartialEq, Eq)]
pub struct RequestAdapterOptions {
    pub power_preference: PowerPreference,
    /// The adapter has to be able to present to the window's surface.
    pub compatible_with_surface: bool,
    /// Ask for a software adapter.
    pub force_fallback_adapter: bool,
}

/// The limits that a device is requested with.
#[derive(Clone, Copy, Debug, PartialEq, Eq)]
pub enum Limits {
    /// What every WebGL2 implementation offers: the most constrained of
    /// the environments the demos run in.
    DownlevelWebgl2,
    /// What every backend but WebGL2 offers.
    Downlevel,
    /// What the WebGPU specification guarantees.
    Standard,
}

/// How the device and its queue are requested.
#[derive(Clone, Copy, Debug, PartialEq, Eq)]
pub struct DeviceDescriptor {
    /// Ask for features beyond the baseline.
    pub optional_features: bool,
    pub required_limits: Limits,
}

/// Why startup ended before the first frame. None of these is retried.
#[derive(Clone, Copy, Debug, PartialEq, Eq)]
pub enum StartupError {
    /// No adapter is compatible with the surface.
    NoAdapter,
    /// The adapter rejected the device request.
    DeviceRejected,
    /// The shader did not compile.
    ShaderRejected,
}

/// What an adapter supports on a surface. A format is held by the code
/// that the host gave it.
#[derive(Clone, Debug, PartialEq, Eq)]
pub struct SurfaceCapabilities {
    /// The formats the surface can present, the preferred one first.
    pub formats: Vec<u32>,
}

/// The outcome of the negotiation for one window: the surface's first
/// configuration, and what the adapter supports on it.
#[derive(Clone, Debug, PartialEq, Eq)]
pub struct GpuInstance {
    pub surface_config: SurfaceConfiguration,
    pub capabilities: SurfaceCapabilities,
}

impl GpuInstance {
    /// The adapter is asked for with low power preferred, since a demo's
    /// workload is light, compatible with the surface, and never a
    /// fallback.
    pub fn adapter_options() -> (options: RequestAdapterOptions)
        ensures
            options == (RequestAdapterOptions {
                power_preference: PowerPreference::LowPower,
                compatible_with_surface: true,
                force_fallback_adapter: false,
            }),
    {
        RequestAdapterOptions {
            power_preference: PowerPreference::LowPower,
            compatible_with_surface: true,
            force_fallback_adapter: false,
        }
    }

    /// The instance for a window whose adapter and device were granted.
    /// The surface is configured at once, with the window's size, each
    /// dimension at least one.
    pub fn new(window: &Window, capabilities: SurfaceCapabilities) -> (instance: GpuInstance)
        ensures
            instance.surface_config == SurfaceConfiguration::for_size(window.inner_size),
            instance.surface_config.is_drawable(),
            instance.capabilities == capabilities,
    {
        GpuInstance { surface_config: SurfaceConfiguration::new(window.inner_size), capabilities }
    }
}

} // verus!
