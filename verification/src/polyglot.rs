//! The native instrumentation pipeline: depth checking, metering, the
//! host environment's gas accounting, and execution outcomes.

pub mod depth;
pub mod util;
pub mod meter;
pub mod machine;
pub mod execute;
pub mod fuzz;
pub mod middlewares;
