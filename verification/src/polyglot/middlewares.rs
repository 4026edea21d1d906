//! The native middlewares: metering, memory limiting, and moving the start function.

pub mod memory;
pub mod meter;
pub mod start;
