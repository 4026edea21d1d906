//! The fuzzing harness's configuration and verdicts: the prices fuzzed
//! programs run under, which machine errors are expected of random
//! programs, and which outcomes of a run are failures.

use vstd::prelude::*;
use crate::wasm::costs::OperatorCosts;
use crate::wasm::operator::Operator;
use crate::prover::programs::config::PolyglotConfig;
use crate::prover::middlewares::meter::MachineMeter;
use crate::polyglot::machine::WasmEnv;
use crate::polyglot::execute::{ExecOutcome, contains_text, str_contains};

verus! {

/// The prices of fuzzed programs: a jump table costs 2 plus 4 per target, a
/// `local.tee` 2, and everything else 1.
#[derive(Clone, Copy, Debug, PartialEq, Eq)]
pub struct FuzzCosts;

/// The price of a jump table with `targets` targets (the most a `u64` holds,
/// for a table too large to price).
pub open spec fn br_table_cost(targets: nat) -> u64 {
    if targets <= 0x3FFF_FFFF_FFFF_FFFF { (2 + 4 * targets) as u64 } else { u64::MAX }
}

impl OperatorCosts for FuzzCosts {
    open spec fn spec_cost(&self, op: Operator) -> u64 {
        match op {
            Operator::BrTable { targets, .. } => br_table_cost(targets@.len()),
            Operator::LocalTee { .. } => 2,
            _ => 1,
        }
    }

    fn cost(&self, op: &Operator) -> (c: u64) {
        match op {
            Operator::BrTable { targets, .. } => {
                let n = targets.len() as u64;
                if n <= 0x3FFF_FFFF_FFFF_FFFF {
                    2 + 4 * n
                } else {
                    u64::MAX
                }
            },
            Operator::LocalTee { .. } => 2,
            _ => 1,
        }
    }
}

/// The configuration fuzzed programs run under, with an environment of no
/// input at a gas price of 1000: the fuzzing prices, 128 Ki gas and a stack
/// of 64 Ki words.
pub fn fuzz_config() -> (res: (PolyglotConfig<FuzzCosts>, WasmEnv))
    ensures
        res.0.costs == FuzzCosts,
        res.0.start_gas == 128 * 1024,
        res.0.max_depth == 64 * 1024,
        res.0.memory_limit == 2 * 1024 * 1024,
        res.1.args@.len() == 0,
        res.1.outs@.len() == 0,
        res.1.gas_price == 1000,
{
    let env = WasmEnv::new(&[], 1000);
    let defaults = PolyglotConfig::default();
    let config = PolyglotConfig {
        costs: FuzzCosts,
        start_gas: 128 * 1024,
        max_depth: 64 * 1024,
        memory_limit: defaults.memory_limit,
    };
    (config, env)
}

/// A machine error that a random program may rightly cause.
pub open spec fn acceptable_machine_error(error: Seq<char>) -> bool {
    ||| contains_text(error, "Memory inits to a size larger"@)
    ||| contains_text(error, "Out-of-bounds data memory init"@)
    ||| contains_text(error, "Out of bounds element segment"@)
    ||| contains_text(error, "No implementation for floating point operation"@)
    ||| contains_text(error, "tables exceed memory limit"@)
    ||| contains_text(error, "module memory minimum"@)
}

/// Whether an error building the machine is one a random program may
/// rightly cause, rather than a bug.
pub fn is_acceptable_machine_error(error: &str) -> (res: bool)
    ensures
        res == acceptable_machine_error(error@),
{
    str_contains(error, "Memory inits to a size larger")
        || str_contains(error, "Out-of-bounds data memory init")
        || str_contains(error, "Out of bounds element segment")
        || str_contains(error, "No implementation for floating point operation")
        || str_contains(error, "tables exceed memory limit")
        || str_contains(error, "module memory minimum")
}

/// What a fuzzed run shows.
#[derive(Clone, Copy, Debug, PartialEq, Eq, Structural)]
pub enum Verdict {
    /// The program ran as programs may.
    Pass,
    /// The program failed as random programs may: worth a warning.
    Warn,
    /// The machine misbehaved: a bug.
    Fail,
}

/// The verdict on a fuzzed run: running out of gas, reverting or failing is
/// worth a warning; a native stack overflow or a fatal error is a bug.
pub open spec fn run_verdict(outcome: ExecOutcome, meter: MachineMeter) -> Verdict {
    if meter is Exhausted {
        Verdict::Warn
    } else {
        match outcome {
            ExecOutcome::NoStart | ExecOutcome::Success(_) => Verdict::Pass,
            ExecOutcome::Revert(_) | ExecOutcome::Failure(_) | ExecOutcome::OutOfGas | ExecOutcome::OutOfStack => Verdict::Warn,
            ExecOutcome::StackOverflow | ExecOutcome::FatalError(_) => Verdict::Fail,
        }
    }
}

/// Judges a fuzzed run by its outcome and the gas left after it.
pub fn judge_run(outcome: &ExecOutcome, meter: MachineMeter) -> (res: Verdict)
    ensures
        res == run_verdict(*outcome, meter),
{
    if let MachineMeter::Exhausted = meter {
        return Verdict::Warn;
    }
    match outcome {
        ExecOutcome::NoStart => Verdict::Pass,
        ExecOutcome::Success(_) => Verdict::Pass,
        ExecOutcome::Revert(_) => Verdict::Warn,
        ExecOutcome::Failure(_) => Verdict::Warn,
        ExecOutcome::OutOfGas => Verdict::Warn,
        ExecOutcome::OutOfStack => Verdict::Warn,
        ExecOutcome::StackOverflow => Verdict::Fail,
        ExecOutcome::FatalError(_) => Verdict::Fail,
    }
}

/// The shape of the random modules the fuzzers generate.
#[derive(Clone, Copy, Debug, PartialEq, Eq)]
pub struct WasmConfig {
    pub min_funcs: usize,
}

impl WasmConfig {
    /// Modules with at least `min_funcs` functions.
    pub fn new(min_funcs: usize) -> (res: WasmConfig)
        ensures
            res.min_funcs == min_funcs,
    {
        WasmConfig { min_funcs }
    }

    /// NaNs are left as they are.
    pub fn canonicalize_nans(&self) -> (res: bool)
        ensures
            !res,
    {
        false
    }

    /// The fewest functions a module has.
    pub fn min_funcs(&self) -> (res: usize)
        ensures
            res == self.min_funcs,
    {
        self.min_funcs
    }

    /// The most functions a module has.
    pub fn max_funcs(&self) -> (res: usize)
        ensures
            res == 100,
    {
        100
    }

    /// The most memory pages a module has: a little over 1 MB.
    pub fn max_memory_pages(&self, is_64: bool) -> (res: u64)
        ensures
            res == 17,
    {
        17
    }

    /// 64-bit memories are off.
    pub fn memory64_enabled(&self) -> (res: bool)
        ensures
            !res,
    {
        false
    }

    /// The weights of in-bounds, edge and out-of-bounds memory offsets:
    /// out of bounds 5% of the time.
    pub fn memory_offset_choices(&self) -> (res: (u32, u32, u32))
        ensures
            res == (95u32, 4u32, 1u32),
    {
        (95, 4, 1)
    }

    /// Multiple results are off.
    pub fn multi_value_enabled(&self) -> (res: bool)
        ensures
            !res,
    {
        false
    }

    /// The most instructions a function has.
    pub fn max_instructions(&self) -> (res: usize)
        ensures
            res == 256,
    {
        256
    }

    /// A start function may be exported.
    pub fn allow_start_export(&self) -> (res: bool)
        ensures
            res,
    {
        true
    }

    /// A start function must be exported.
    pub fn require_start_export(&self) -> (res: bool)
        ensures
            res,
    {
        true
    }

    /// Threads are off.
    pub fn threads_enabled(&self) -> (res: bool)
        ensures
            !res,
    {
        false
    }
}

} // verus!
