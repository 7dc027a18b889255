//! The verified core of a sandbox of GPU demos.
//!
//! A demo is a small state record, a shader, and hooks that react to the
//! window's events. This crate holds everything about a demo that can be
//! decided without touching a device or a window: the byte layout of the
//! state in uniform memory ([`layout`]), the description of the render
//! context's resources and of each frame ([`gpu::context`]), the hooks
//! ([`gpu::app`]) and the state machine of the event loop
//! ([`gpu::runtime`]). The host performs what is decided here: it talks
//! to the graphics backend, runs the platform's event loop and evaluates
//! floating-point expressions ([`expr`]).
pub mod event;
pub mod examples;
pub mod expr;
pub mod gpu;
pub mod layout;
pub mod scalar;
