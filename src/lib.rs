//! Frame-paced resource lifecycle management for a GPU renderer.
//!
//! The library keeps CPU-side mutation of render resources safe while the GPU
//! works several frames behind: resources live in generational arenas, removed
//! resources wait in a deferred-destroy queue until every frame that could read
//! them has completed, and a frame pacer bounds the number of frames in flight.
use vstd::prelude::*;

pub mod destroy;
pub mod arena;
pub mod descriptor;
pub mod pacer;
pub mod swapchain;
pub mod mesh;
pub mod shader;
pub mod light;
pub mod input;
pub mod memory;
