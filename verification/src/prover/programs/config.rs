//! The configuration of the instrumentation pipeline.

use vstd::prelude::*;
use crate::wasm::costs::{OperatorCosts, UniformCost};
use crate::wasm::units::WASM_PAGE_SIZE;
use crate::prover::middlewares::meter::Meter;
use crate::prover::middlewares::memory::MemoryChecker;
use crate::prover::middlewares::start::StartMover;
use crate::polyglot::depth::DepthChecker;

verus! {

/// The configuration of the instrumentation pipeline.
#[derive(Clone, Copy, Debug)]
pub struct PolyglotConfig<C: OperatorCosts + Copy> {
    /// The price list for operators.
    pub costs: C,
    /// The gas a program starts with.
    pub start_gas: u64,
    /// The stack budget, in words.
    pub max_depth: u32,
    /// The memory a program may use, in bytes.
    pub memory_limit: usize,
}

impl Default for PolyglotConfig<UniformCost> {
    /// Free operators, no gas, a 1024-word stack and 2 MiB of memory.
    fn default() -> (res: Self)
        ensures
            res.costs == (UniformCost { cost: 0 }),
            res.start_gas == 0,
            res.max_depth == 1024,
            res.memory_limit == 2 * 1024 * 1024,
    {
        PolyglotConfig { costs: UniformCost { cost: 0 }, start_gas: 0, max_depth: 1024, memory_limit: 2 * 1024 * 1024 }
    }
}

/// The middlewares a compiler is given, in the order they run.
pub struct Instrumentation<C: OperatorCosts + Copy> {
    pub meter: Meter<C>,
    pub depth: DepthChecker,
    pub memory: MemoryChecker,
    pub start: StartMover,
}

impl<C: OperatorCosts + Copy> PolyglotConfig<C> {
    /// The middlewares for this configuration: the meter, the depth checker,
    /// the memory checker (refused when the memory limit is too many pages),
    /// and the mover of the start function to `polyglot_moved_start`.
    pub fn instrumentation(&self) -> (res: Result<Instrumentation<C>, wasmer_types::PageCountOutOfRange>)
        ensures
            res is Ok <==> self.memory_limit / WASM_PAGE_SIZE <= u32::MAX,
            res matches Ok(ins) ==> {
                &&& ins.meter.costs == self.costs
                &&& ins.meter.start_gas == self.start_gas
                &&& ins.meter.gas_global is None
                &&& ins.depth.limit == self.max_depth
                &&& ins.depth.global is None
                &&& ins.memory.spec_limit() == self.memory_limit
                &&& ins.start.spec_name() == "polyglot_moved_start"@
            },
    {
        let meter = Meter::new(self.costs, self.start_gas);
        let depth = DepthChecker::new(self.max_depth);
        let memory = match MemoryChecker::new(self.memory_limit) {
            Ok(memory) => memory,
            Err(e) => return Err(e),
        };
        let start = StartMover::new("polyglot_moved_start");
        Ok(Instrumentation { meter, depth, memory, start })
    }
}

} // verus!
