# arbitrator

The verified core of the Arbitrum arbitrator tooling, written in Verus.

- `src/` is the library; every function in it carries a contract that Verus
  proves. Calls into outside crates (hashing, hex, Brotli, random numbers,
  regular expressions, byte-size rendering) sit behind small trusted wrappers
  whose contracts say what the crates' documentation promises.
  - `wasm`, `polyglot`, `prover`: the WebAssembly operator model, the
    instrumentation passes (gas metering, stack-depth checking, operator
    counting, memory limits, start-function moving), execution outcomes,
    Merkle trees over Keccak-256, and the prover's host functions.
  - `langs`: the Stylus SDK's call builders and calldata extractors.
  - `cargo_stylus`, `stylus_cli`: deployment and activation calldata,
    multicall batches, program size and version checks, project configuration
    and templates, compressed program code.
  - `gas_pricer`, `rng`: random straight-line WAT programs for pricing, and a
    PCG random number generator.
  - `seraphina`, `polyglot::fuzz`, `jit`, `sha3_program`, `brotli`, `evm`,
    `bytes`, `color`: the fuzz runner's configurations and rewriting, the
    fuzzers' verdicts, the JIT's program-thread bookkeeping and host step, the
    sample hashing program, Brotli compression, EVM constants and words, and
    terminal colours for the tools' messages.
- `tests/` runs the library on concrete values.
- `app/` is the `stylus` command line tool around the library: project
  creation and compilation, with the file system and process work.
