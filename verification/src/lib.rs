//! Verified core of the Arbitrum arbitrator tooling: EVM helpers, fixed-size
//! byte words, the Stylus call builders, the WebAssembly instrumentation
//! passes (gas metering, stack-depth checking, operator counting), Merkle
//! trees over Keccak-256, and assorted configuration and encoding helpers.

pub mod brotli;
pub mod bytes;
pub mod color;
pub mod wasm;
pub mod polyglot;
pub mod prover;
pub mod evm;
pub mod gas_pricer;
pub mod jit;
pub mod rng;
pub mod seraphina;
pub mod sha3_program;
pub mod stylus_cli;
pub mod langs;
pub mod cargo_stylus;
