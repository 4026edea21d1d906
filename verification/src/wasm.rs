//! The library's model of WebAssembly modules and operators.

pub mod operator;
pub mod module;
pub mod costs;
pub mod units;
