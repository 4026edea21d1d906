//! Native gas metering: each basic block is preceded by a header that traps
//! when the gas left is below the block's cost, and otherwise deducts it.

use vstd::prelude::*;
use crate::wasm::operator::{Operator, ValType, ends_basic_block};
use crate::wasm::costs::OperatorCosts;
use crate::wasm::module::{ModuleInfo, GlobalInit, ExportIndex};
use crate::polyglot::util::{add_global, polyglot_name};
use crate::prover::middlewares::meter::{sat_add, meter_header, build_header, MeterGlobals};

verus! {

/// The metering middleware.
pub struct Meter<C: OperatorCosts + Copy> {
    /// The gas-left and gas-status globals, once the module has been updated.
    pub globals: Option<(u32, u32)>,
    /// The price list.
    pub costs: C,
    /// The gas the program starts with.
    pub start_gas: u64,
}

/// The per-function state of the meter.
pub struct FunctionMeter<C: OperatorCosts> {
    /// The global holding the gas left.
    pub gas_global: u32,
    /// The global set to 1 when the gas runs out.
    pub status_global: u32,
    /// The operators of the current basic block.
    pub block: Vec<Operator>,
    /// The accumulated cost of the current basic block.
    pub block_cost: u64,
    /// The price list.
    pub costs: C,
}

impl<C: OperatorCosts + Copy> Meter<C> {
    pub fn new(costs: C, start_gas: u64) -> (res: Self)
        ensures
            res.globals is None,
            res.costs == costs,
            res.start_gas == start_gas,
    {
        Meter { globals: None, costs, start_gas }
    }

    /// Adds the globals `polyglot_gas_left` (starting at `start_gas`) and
    /// `polyglot_gas_status` (starting at 0), and records them.
    pub fn transform_module_info(&mut self, module: &mut ModuleInfo)
        requires
            old(self).globals is None,
            old(module).globals@.len() + 2 <= u32::MAX,
        ensures
            final(self).globals == Some((old(module).globals@.len() as u32, (old(module).globals@.len() + 1) as u32)),
            final(self).costs == old(self).costs,
            final(self).start_gas == old(self).start_gas,
            final(module).global_initializers@ == old(module).global_initializers@
                .push(GlobalInit::I64Const(old(self).start_gas as i64))
                .push(GlobalInit::I32Const(0)),
            final(module).exports.get(polyglot_name("gas_left"@))
                == Some(ExportIndex::Global(old(module).globals@.len() as u32)),
            final(module).exports.get(polyglot_name("gas_status"@))
                == Some(ExportIndex::Global((old(module).globals@.len() + 1) as u32)),
    {
        let start = GlobalInit::I64Const(self.start_gas as i64);
        let gas = add_global(module, "gas_left", ValType::I64, start);
        let status = add_global(module, "gas_status", ValType::I32, GlobalInit::I32Const(0));
        proof {
            reveal_strlit("gas_left");
            reveal_strlit("gas_status");
            assert(polyglot_name("gas_left"@) != polyglot_name("gas_status"@)) by {
                assert(polyglot_name("gas_left"@).len() != polyglot_name("gas_status"@).len());
            }
        }
        self.globals = Some((gas, status));
    }

    /// The per-function meter, charging the globals the module was given.
    pub fn generate_function_middleware(&self) -> (res: FunctionMeter<C>)
        requires
            self.globals is Some,
        ensures
            res.gas_global == (self.globals->0).0,
            res.status_global == (self.globals->0).1,
            res.block@ == Seq::<Operator>::empty(),
            res.block_cost == 0,
            res.costs == self.costs,
    {
        let (gas, status) = self.globals.unwrap();
        FunctionMeter { gas_global: gas, status_global: status, block: Vec::new(), block_cost: 0, costs: self.costs }
    }
}

impl<C: OperatorCosts> FunctionMeter<C> {
    /// Adds an operator to the current block; when it ends the block, emits
    /// the block behind a header charging the block's cost.
    pub fn feed(&mut self, operator: Operator, state: &mut Vec<Operator>)
        ensures
            final(self).gas_global == old(self).gas_global,
            final(self).status_global == old(self).status_global,
            final(self).costs == old(self).costs,
            ends_basic_block(operator) ==> {
                let cost = sat_add(old(self).block_cost, old(self).costs.spec_cost(operator));
                &&& final(state)@ == old(state)@ + meter_header(old(self).gas_global, old(self).status_global, cost)
                    + old(self).block@.push(operator)
                &&& final(self).block@ == Seq::<Operator>::empty()
                &&& final(self).block_cost == 0
            },
            !ends_basic_block(operator) ==> {
                &&& final(state)@ == old(state)@
                &&& final(self).block@ == old(self).block@.push(operator)
                &&& final(self).block_cost == sat_add(old(self).block_cost, old(self).costs.spec_cost(operator))
            },
    {
        let end = operator.ends_basic_block();
        let op_cost = self.costs.cost(&operator);
        let cost = self.block_cost.saturating_add(op_cost);
        self.block_cost = cost;
        self.block.push(operator);
        if end {
            let mut header = build_header(self.gas_global, self.status_global, cost);
            state.append(&mut header);
            state.append(&mut self.block);
            self.block_cost = 0;
        }
    }
}

/// The state of a native instance's gas meter.
#[derive(Clone, Copy, Debug, PartialEq, Eq, Structural)]
pub enum MachineMeter {
    Ready(u64),
    Exhausted,
}

/// The instance's gas: exhausted when the status global is 1.
pub fn gas_left(instance: &MeterGlobals) -> (res: MachineMeter)
    ensures
        instance.gas_status == 1 ==> res == MachineMeter::Exhausted,
        instance.gas_status != 1 ==> res == MachineMeter::Ready(instance.gas_left),
{
    if instance.gas_status == 1 {
        MachineMeter::Exhausted
    } else {
        MachineMeter::Ready(instance.gas_left)
    }
}

/// Sets the instance's gas and clears its out-of-gas status.
pub fn set_gas(instance: &mut MeterGlobals, gas: u64)
    ensures
        final(instance).gas_left == gas,
        final(instance).gas_status == 0,
{
    instance.gas_left = gas;
    instance.gas_status = 0;
}

} // verus!
