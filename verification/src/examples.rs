//! The demos: each a state type, its uniform record and its hooks.
pub mod mandelbrot;
pub mod triangle;
