//! The proving-side instrumentation middlewares and their shared interfaces.

pub mod middlewares;
pub mod host;
pub mod merkle;
pub mod programs;
