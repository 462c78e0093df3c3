//! A render-surface adapter and frame driver for an animated OpenGL surface
//! embedded in a desktop window.
//!
//! The library holds the decisions that the program makes: what the surface
//! adapter answers to the graphics layer (dimensions, buffer-swap outcome,
//! current-context status), and how the frame driver advances its counter and
//! plans each frame. The surrounding program queries the toolkit for live
//! values, hands them in, and carries the planned actions out.

pub mod adapter;
pub mod driver;
