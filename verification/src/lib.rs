//! A frame presentation engine: swapchain lifecycle, per-tick command
//! recording, and cross-frame synchronization under resize and transient
//! failure.
//!
//! The engine is modelled as an explicit state machine. Each tick the
//! submission loop checks for a pending resize, rebuilds the swapchain and
//! its frame targets if one is pending, acquires a presentable image,
//! records a single-use command sequence, and submits it chained onto the
//! previous frame's completion token. GPU outcomes (rebuild, acquisition and
//! flush results) are reported to the engine by its caller, which performs
//! the actual device work; the engine's decisions are verified for every
//! possible outcome.

pub mod swapchain;
pub mod targets;
pub mod frame_sync;
pub mod geometry;
pub mod command;
pub mod engine;
