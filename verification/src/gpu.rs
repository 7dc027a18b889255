//! The runtime that drives one demo: the negotiated instance, the render
//! context built from it, the hooks of a demo's state, and the event loop's
//! state machine.
pub mod app;
pub mod context;
pub mod instance;
pub mod runtime;
