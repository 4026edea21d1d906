//! The Rust SDK for Stylus programs: call builders and calldata extractors.

pub mod call;
pub mod contract;
pub mod extractors;
