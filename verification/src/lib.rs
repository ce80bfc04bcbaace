//! Core of a batched 2D sprite renderer: the instance record and its wire
//! encoding, the bounded instance queue with its submission protocol, the
//! aspect-normalising projection, and the fixed geometry and pipeline
//! layout that the GPU side is configured with.

pub mod depth;
pub mod geometry;
pub mod instance;
pub mod pipeline;
pub mod projection;
pub mod renderer;
