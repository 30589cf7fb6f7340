//! Aspect-preserving presentation of one image inside a resizable window:
//! configuration negotiation, the shading pipeline over exact rationals,
//! per-frame uniform state and the render-loop state machine.

pub mod color;
pub mod config;
pub mod context;
pub mod error;
pub mod frame;
pub mod geometry;
pub mod image_source;
pub mod render_loop;
pub mod scalar;
pub mod stages;
pub mod texture;
pub mod transform;

pub use context::setup;
pub use render_loop::{run, State};
pub use stages::{fragment_shader, texture_aspect_ratio, vertex_shader, App, Uniforms};
pub use transform::{aspect_ratio, flip_v, fragcoord, preserve_aspect_ratio, uv};
