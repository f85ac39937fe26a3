//! Transform-and-batch core of a small 2D sprite renderer.
//!
//! Sprites are drawn as textured unit quads. Each camera accumulates the
//! quads of one frame into draw calls, coalescing consecutive quads that
//! share a shader program and a texture, and turns those draw calls into an
//! ordered list of GPU steps. GPU objects are referred to by integer handles;
//! the host that owns the real GPU context carries the steps out.

pub mod batch;
pub mod camera;
pub mod frame;
pub mod geometry;
