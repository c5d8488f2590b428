//! Core of a deferred-shading renderer: render-target lifecycle, pass
//! sequencing, per-light-type uniform wiring, resize semantics and the
//! shadow-projection bias matrix. The pipeline is a verified state machine
//! that records the GPU work it decides on as a command sequence; an
//! embedder performs those commands against one real graphics context.

pub mod bits;
pub mod camera;
pub mod context;
pub mod deferred;
pub mod light;
pub mod program;
pub mod rendertarget;
pub mod shadow;
pub mod texture;
