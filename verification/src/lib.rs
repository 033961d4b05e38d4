//! Turns notes played on a keyboard into frames for an addressable LED strip.
//!
//! The crate maps note numbers to LED positions, resolves colors for them,
//! keeps the per-animation state that evolves from frame to frame, and routes
//! queued note events into the active animation. Every function here has a
//! contract that states its result over the mathematical model of its inputs.

pub mod animator;
pub mod color;
pub mod config;
pub mod control;
pub mod fade;
pub mod frame;
pub mod midi;
pub mod position;
pub mod ripple;
pub mod router;
pub mod steady;
pub mod text;
