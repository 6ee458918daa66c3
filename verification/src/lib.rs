//! The parameter pipeline of a GPU fractal viewer.
//!
//! The viewer draws a Mandelbrot or Julia set in a fragment shader. Each frame
//! the shader reads one uniform block that carries the view and the colouring
//! parameters. This crate holds what stands between the user's settings and
//! that block: the settings themselves, the block with its byte layout, the
//! description of the GPU objects that hold it, and the two commands that a
//! frame issues. It talks to no GPU itself; the host program performs the
//! commands that it is handed. The ring of frame-rate samples is here too.
//!
//! Numbers that the shader reads as 32-bit floating point are held here by
//! their bit patterns, see [`scalar::Scalar`].
pub mod scalar;
pub mod uniforms;
pub mod user_settings;
pub mod app_state;
pub mod frame_rate;
pub mod fv_render_callback;
pub mod fv_renderer;
