//! The first, counting-only form of the native meter: a fuel global, and a
//! per-function count of the operators seen.

use vstd::prelude::*;
use crate::wasm::operator::{Operator, ValType};
use crate::wasm::module::{ModuleInfo, GlobalInit, GlobalType, ExportIndex};
use crate::polyglot::util::polyglot_name;

verus! {

/// The counting meter.
#[derive(Debug)]
pub struct Meter {
    /// The fuel global, once the module has been updated.
    pub global: Option<u32>,
}

impl Meter {
    pub fn new() -> (res: Self)
        ensures
            res.global is None,
    {
        Meter { global: None }
    }

    /// Adds the fuel global `polyglot_fuel_left` and records it.
    pub fn transform_module_info(&mut self, module_info: &mut ModuleInfo)
        requires
            old(self).global is None,
            old(module_info).globals@.len() < u32::MAX,
        ensures
            final(self).global == Some(old(module_info).globals@.len() as u32),
            final(module_info).exports.get(polyglot_name("fuel_left"@))
                == Some(ExportIndex::Global(old(module_info).globals@.len() as u32)),
    {
        let gas = add_global(module_info, "fuel_left");
        self.global = Some(gas);
    }

    /// The per-function meter.
    pub fn generate_function_middleware(&self) -> (res: FunctionMeter)
        requires
            self.global is Some,
        ensures
            res.global == self.global->0,
            res.block_cost == 0,
    {
        FunctionMeter::new(self.global.unwrap())
    }
}

/// Adds a mutable 32-bit global starting at zero, exported as `polyglot_`
/// followed by `name`, and returns its index.
pub fn add_global(module: &mut ModuleInfo, name: &str) -> (index: u32)
    requires
        old(module).globals@.len() < u32::MAX,
    ensures
        index == old(module).globals@.len(),
        final(module).globals@ == old(module).globals@.push(GlobalType { ty: ValType::I32, mutable: true }),
        final(module).global_initializers@ == old(module).global_initializers@.push(GlobalInit::I32Const(0)),
        final(module).exports.get(polyglot_name(name@)) == Some(ExportIndex::Global(index)),
        forall|n: Seq<char>| n != polyglot_name(name@) ==> final(module).exports.get(n) == old(module).exports.get(n),
{
    crate::polyglot::util::add_global(module, name, ValType::I32, GlobalInit::I32Const(0))
}

/// The per-function state of the counting meter.
#[derive(Debug)]
pub struct FunctionMeter {
    pub global: u32,
    /// The operators seen so far.
    pub block_cost: usize,
}

/// What each operator costs the counting meter.
pub open spec fn unit_cost(operator: Operator) -> usize {
    1
}

impl FunctionMeter {
    pub fn new(global: u32) -> (res: Self)
        ensures
            res.global == global,
            res.block_cost == 0,
    {
        FunctionMeter { global, block_cost: 0 }
    }

    /// Counts the operator and passes it through.
    pub fn feed(&mut self, operator: Operator, state: &mut Vec<Operator>)
        requires
            old(self).block_cost < usize::MAX,
        ensures
            final(self).global == old(self).global,
            final(self).block_cost == old(self).block_cost + unit_cost(operator),
            final(state)@ == old(state)@.push(operator),
    {
        self.block_cost = self.block_cost + operator_cost(&operator);
        state.push(operator);
    }
}

/// What an operator costs the counting meter: one, whatever it is.
pub fn operator_cost(operator: &Operator) -> (res: usize)
    ensures
        res == unit_cost(*operator),
{
    1
}

} // verus!
