//! A presentation engine for a single output surface: it plans the image
//! chain, tracks the one outstanding frame token, and decides, step by step,
//! what a rendering loop has to do next.

pub mod chain;
pub mod device;
pub mod engine;
pub mod extent;
pub mod invariants;
pub mod protocol;
pub mod recorder;
pub mod surface;
pub mod tracker;
