//! Gas metering: each basic block is preceded by a header that traps when the
//! gas left is below the block's cost, and otherwise deducts it.

use vstd::prelude::*;
use crate::wasm::operator::{Operator, BlockType, ends_basic_block};
use crate::wasm::costs::OperatorCosts;
use crate::wasm::module::{ModuleInfo, GlobalInit, ExportIndex};
use crate::wasm::operator::ValType;

verus! {

/// Saturating `u64` addition, as a spec.
pub open spec fn sat_add(a: u64, b: u64) -> u64 {
    if a + b > u64::MAX { u64::MAX } else { (a + b) as u64 }
}

/// The header charging `cost` to the gas global, trapping with the status
/// global set to 1 when the gas left is below the cost.
pub open spec fn meter_header(gas: u32, status: u32, cost: u64) -> Seq<Operator> {
    seq![
        Operator::GlobalGet { global_index: gas },
        Operator::I64Const { value: cost as i64 },
        Operator::I64LtU,
        Operator::If { ty: BlockType::Empty },
        Operator::I32Const { value: 1 },
        Operator::GlobalSet { global_index: status },
        Operator::Unreachable,
        Operator::End,
        Operator::GlobalGet { global_index: gas },
        Operator::I64Const { value: cost as i64 },
        Operator::I64Sub,
        Operator::GlobalSet { global_index: gas },
    ]
}

/// `acc` plus the prices of `ops`, saturating.
pub open spec fn add_costs<C: OperatorCosts>(costs: C, acc: u64, ops: Seq<Operator>) -> u64
    decreases ops.len(),
{
    if ops.len() == 0 {
        acc
    } else {
        sat_add(add_costs(costs, acc, ops.drop_last()), costs.spec_cost(ops.last()))
    }
}

/// The cost charged for a block whose operators cost `block_cost`: the block
/// plus the header that charges it (priced as built with `block_cost`).
pub open spec fn charged_cost<C: OperatorCosts>(costs: C, gas: u32, status: u32, block_cost: u64) -> u64 {
    add_costs(costs, block_cost, meter_header(gas, status, block_cost))
}

/// A meter's running cost stays the price of its pending block: adding an
/// operator to a block whose running cost is the block's price (the cost
/// `feed` keeps) gives the price of the longer block, so a block is charged
/// for every operator in it.
pub proof fn lemma_feed_tracks_cost<C: OperatorCosts>(costs: C, block: Seq<Operator>, block_cost: u64, op: Operator)
    requires
        block_cost == add_costs(costs, 0, block),
    ensures
        sat_add(block_cost, costs.spec_cost(op)) == add_costs(costs, 0, block.push(op)),
{
    assert(block.push(op).drop_last() =~= block);
}

/// The per-function state of the meter.
pub struct FunctionMeter<C: OperatorCosts> {
    /// The global holding the gas left.
    pub gas_global: u32,
    /// The global set to 1 when the gas runs out.
    pub status_global: u32,
    /// The operators of the current basic block.
    pub block: Vec<Operator>,
    /// The accumulated cost of the current basic block.
    pub block_cost: u64,
    /// The price list.
    pub costs: C,
}

pub fn build_header(gas: u32, status: u32, cost: u64) -> (res: Vec<Operator>)
    ensures
        res@ == meter_header(gas, status, cost),
{
    let res = vec![
        Operator::GlobalGet { global_index: gas },
        Operator::I64Const { value: cost as i64 },
        Operator::I64LtU,
        Operator::If { ty: BlockType::Empty },
        Operator::I32Const { value: 1 },
        Operator::GlobalSet { global_index: status },
        Operator::Unreachable,
        Operator::End,
        Operator::GlobalGet { global_index: gas },
        Operator::I64Const { value: cost as i64 },
        Operator::I64Sub,
        Operator::GlobalSet { global_index: gas },
    ];
    proof {
        assert(res@ =~= meter_header(gas, status, cost));
    }
    res
}

impl<C: OperatorCosts> FunctionMeter<C> {
    pub fn new(gas_global: u32, status_global: u32, costs: C) -> (res: Self)
        ensures
            res.gas_global == gas_global,
            res.status_global == status_global,
            res.block@ == Seq::<Operator>::empty(),
            res.block_cost == 0,
            res.costs == costs,
    {
        FunctionMeter { gas_global, status_global, block: Vec::new(), block_cost: 0, costs }
    }

    /// Adds an operator to the current block; when it ends the block, emits
    /// the block behind a header that charges its cost (header included).
    pub fn feed(&mut self, op: Operator, out: &mut Vec<Operator>)
        ensures
            final(self).gas_global == old(self).gas_global,
            final(self).status_global == old(self).status_global,
            final(self).costs == old(self).costs,
            ends_basic_block(op) ==> {
                let cost = sat_add(old(self).block_cost, old(self).costs.spec_cost(op));
                let charged = charged_cost(old(self).costs, old(self).gas_global, old(self).status_global, cost);
                &&& final(out)@ == old(out)@ + meter_header(old(self).gas_global, old(self).status_global, charged)
                    + old(self).block@.push(op)
                &&& final(self).block@ == Seq::<Operator>::empty()
                &&& final(self).block_cost == 0
            },
            !ends_basic_block(op) ==> {
                &&& final(out)@ == old(out)@
                &&& final(self).block@ == old(self).block@.push(op)
                &&& final(self).block_cost == sat_add(old(self).block_cost, old(self).costs.spec_cost(op))
            },
    {
        let end = op.ends_basic_block();
        let op_cost = self.costs.cost(&op);
        let mut cost = self.block_cost.saturating_add(op_cost);
        self.block_cost = cost;
        self.block.push(op);
        if end {
            let gas = self.gas_global;
            let status = self.status_global;
            let mut header = build_header(gas, status, cost);
            let ghost base = cost;
            let mut i: usize = 0;
            while i < header.len()
                invariant
                    header@ == meter_header(gas, status, base),
                    i <= header@.len(),
                    cost == add_costs(self.costs, base, header@.take(i as int)),
                decreases header@.len() - i,
            {
                let c = self.costs.cost(&header[i]);
                proof {
                    assert(header@.take(i + 1).drop_last() =~= header@.take(i as int));
                }
                cost = cost.saturating_add(c);
                i = i + 1;
            }
            proof {
                assert(header@.take(header@.len() as int) =~= header@);
            }
            header.set(1, Operator::I64Const { value: cost as i64 });
            header.set(9, Operator::I64Const { value: cost as i64 });
            proof {
                assert(header@ =~= meter_header(gas, status, cost));
            }
            out.append(&mut header);
            out.append(&mut self.block);
            self.block_cost = 0;
        }
    }
}

} // verus!

verus! {

/// The metering middleware: adds the gas globals to a module and meters its functions.
pub struct Meter<C: OperatorCosts + Copy> {
    /// The gas-left global, once the module has been updated.
    pub gas_global: Option<u32>,
    /// The gas-status global, once the module has been updated.
    pub status_global: Option<u32>,
    /// The price list.
    pub costs: C,
    /// The gas the program starts with.
    pub start_gas: u64,
}

impl<C: OperatorCosts + Copy> Meter<C> {
    pub fn new(costs: C, start_gas: u64) -> (res: Self)
        ensures
            res.gas_global is None,
            res.status_global is None,
            res.costs == costs,
            res.start_gas == start_gas,
    {
        Meter { gas_global: None, status_global: None, costs, start_gas }
    }

    /// Adds the exported globals `polyglot_gas_left` (a 64-bit integer starting
    /// at `start_gas`) and `polyglot_gas_status` (a 32-bit integer starting at 0).
    pub fn update_module(&mut self, module: &mut ModuleInfo)
        requires
            old(module).globals@.len() + 2 <= u32::MAX,
        ensures
            final(self).gas_global == Some(old(module).globals@.len() as u32),
            final(self).status_global == Some((old(module).globals@.len() + 1) as u32),
            final(self).costs == old(self).costs,
            final(self).start_gas == old(self).start_gas,
            final(module).global_initializers@ == old(module).global_initializers@
                .push(GlobalInit::I64Const(old(self).start_gas as i64))
                .push(GlobalInit::I32Const(0)),
            final(module).globals@.len() == old(module).globals@.len() + 2,
            final(module).exports.get("polyglot_gas_left"@) == Some(ExportIndex::Global(old(module).globals@.len() as u32)),
            final(module).exports.get("polyglot_gas_status"@) == Some(ExportIndex::Global((old(module).globals@.len() + 1) as u32)),
    {
        let start = GlobalInit::I64Const(self.start_gas as i64);
        let gas = module.add_global("polyglot_gas_left", ValType::I64, start);
        let status = module.add_global("polyglot_gas_status", ValType::I32, GlobalInit::I32Const(0));
        proof {
            reveal_strlit("polyglot_gas_left");
            reveal_strlit("polyglot_gas_status");
            assert("polyglot_gas_left"@ != "polyglot_gas_status"@) by {
                assert("polyglot_gas_left"@.len() != "polyglot_gas_status"@.len());
            }
        }
        self.gas_global = Some(gas);
        self.status_global = Some(status);
    }

    /// The per-function meter, charging the globals the module was given.
    pub fn instrument(&self) -> (res: FunctionMeter<C>)
        requires
            self.gas_global is Some,
            self.status_global is Some,
        ensures
            res.gas_global == self.gas_global->0,
            res.status_global == self.status_global->0,
            res.block@ == Seq::<Operator>::empty(),
            res.block_cost == 0,
            res.costs == self.costs,
    {
        let gas = self.gas_global.unwrap();
        let status = self.status_global.unwrap();
        FunctionMeter::new(gas, status, self.costs)
    }
}

/// The state of a machine's gas meter.
#[derive(Clone, Copy, Debug, PartialEq, Eq, Structural)]
pub enum MachineMeter {
    /// This much gas is left.
    Ready(u64),
    /// The machine ran out of gas.
    Exhausted,
}

impl MachineMeter {
    /// The gas left as a number: none when exhausted.
    pub open spec fn gas(self) -> u64 {
        match self {
            MachineMeter::Ready(gas) => gas,
            MachineMeter::Exhausted => 0,
        }
    }

    /// The meter as text: "`n` gas left", or "out of gas".
    pub fn describe(&self) -> (res: String)
        ensures
            res@ == match *self {
                MachineMeter::Ready(gas) => crate::wasm::module::decimal(gas) + " gas left"@,
                MachineMeter::Exhausted => "out of gas"@,
            },
    {
        match self {
            MachineMeter::Ready(gas) => {
                let mut text = crate::wasm::module::decimal_string(*gas);
                text.append(" gas left");
                text
            },
            MachineMeter::Exhausted => String::from_str("out of gas"),
        }
    }
}

impl From<MachineMeter> for u64 {
    /// The gas left: none when exhausted.
    fn from(meter: MachineMeter) -> (res: u64) {
        match meter {
            MachineMeter::Ready(gas) => gas,
            MachineMeter::Exhausted => 0,
        }
    }
}

impl vstd::std_specs::convert::FromSpecImpl<MachineMeter> for u64 {
    open spec fn obeys_from_spec() -> bool {
        true
    }

    open spec fn from_spec(meter: MachineMeter) -> u64 {
        meter.gas()
    }
}

/// A machine whose gas can be read and set.
pub trait MeteredMachine {
    /// The machine's meter as the library sees it.
    spec fn meter(&self) -> MachineMeter;

    fn gas_left(&self) -> (res: MachineMeter)
        ensures
            res == self.meter(),
    ;

    fn set_gas(&mut self, gas: u64)
        ensures
            final(self).meter() == MachineMeter::Ready(gas),
    ;
}

/// The two metering globals of an instrumented instance.
#[derive(Clone, Copy, Debug, PartialEq, Eq)]
pub struct MeterGlobals {
    /// `polyglot_gas_left`
    pub gas_left: u64,
    /// `polyglot_gas_status`: 1 once the gas has run out
    pub gas_status: i32,
}

impl MeteredMachine for MeterGlobals {
    open spec fn meter(&self) -> MachineMeter {
        if self.gas_status == 1 {
            MachineMeter::Exhausted
        } else {
            MachineMeter::Ready(self.gas_left)
        }
    }

    fn gas_left(&self) -> (res: MachineMeter) {
        if self.gas_status == 1 {
            MachineMeter::Exhausted
        } else {
            MachineMeter::Ready(self.gas_left)
        }
    }

    fn set_gas(&mut self, gas: u64) {
        self.gas_left = gas;
        self.gas_status = 0;
    }
}

} // verus!
