//! The host environment of a natively run program: its arguments, its
//! output, and the conversion between the program's gas and EVM gas.

use vstd::prelude::*;
use crate::prover::middlewares::meter::{MachineMeter, MeteredMachine, MeterGlobals};
use crate::wasm::module::{decimal, decimal_string};

verus! {

/// Why a program stopped early.
#[derive(Clone, Debug)]
pub enum Escape {
    /// The program exited with a status code.
    Exit(u32),
    /// The runtime failed.
    Failure(String),
    /// A host function failed.
    HostIO(String),
    /// The program ran out of gas.
    OutOfGas,
}

/// `Ok` to go on, or the reason to stop.
pub type MaybeEscape = Result<(), Escape>;

impl Escape {
    /// Stops with the given exit code.
    pub fn exit(code: u32) -> (res: MaybeEscape)
        ensures
            res matches Err(Escape::Exit(c)) && c == code,
    {
        Err(Escape::Exit(code))
    }

    /// Stops for a failed host function.
    pub fn hostio(message: &str) -> (res: MaybeEscape)
        ensures
            res matches Err(Escape::HostIO(m)) && m@ == message@,
    {
        Err(Escape::HostIO(message.to_owned()))
    }

    /// Stops for a runtime failure.
    pub fn failure(message: &str) -> (res: MaybeEscape)
        ensures
            res matches Err(Escape::Failure(m)) && m@ == message@,
    {
        Err(Escape::Failure(message.to_owned()))
    }

    /// Stops for lack of gas.
    pub fn out_of_gas() -> (res: MaybeEscape)
        ensures
            res matches Err(Escape::OutOfGas),
    {
        Err(Escape::OutOfGas)
    }
}

/// The text of an escape.
pub open spec fn escape_text(escape: Escape) -> Seq<char> {
    match escape {
        Escape::Exit(code) => "program exited with status code `"@ + decimal(code as u64) + "`"@,
        Escape::Failure(message) => "runtime failed with `"@ + message@ + "`"@,
        Escape::HostIO(message) => "hostio failed with `"@ + message@ + "`"@,
        Escape::OutOfGas => "out of gas"@,
    }
}

impl Escape {
    /// The escape as text.
    pub fn describe(&self) -> (res: String)
        ensures
            res@ == escape_text(*self),
    {
        match self {
            Escape::Exit(code) => {
                let mut text = String::from_str("program exited with status code `");
                let digits = decimal_string(*code as u64);
                text.append(digits.as_str());
                text.append("`");
                text
            },
            Escape::Failure(message) => {
                let mut text = String::from_str("runtime failed with `");
                text.append(message.as_str());
                text.append("`");
                text
            },
            Escape::HostIO(message) => {
                let mut text = String::from_str("hostio failed with `");
                text.append(message.as_str());
                text.append("`");
                text
            },
            Escape::OutOfGas => String::from_str("out of gas"),
        }
    }
}

/// `a * b`, saturating at `u64::MAX`.
pub open spec fn sat_mul(a: u64, b: u64) -> u64 {
    if a * b > u64::MAX { u64::MAX } else { (a * b) as u64 }
}

fn saturating_mul(a: u64, b: u64) -> (res: u64)
    ensures
        res == sat_mul(a, b),
{
    match a.checked_mul(b) {
        Some(product) => product,
        None => u64::MAX,
    }
}

/// The EVM gas a program's gas is worth: each unit of gas costs
/// `gas_price` thousandths of an EVM gas (saturating).
pub open spec fn evm_gas_of(gas: u64, gas_price: u64) -> u64 {
    (sat_mul(gas, gas_price) / 1000) as u64
}

/// The program's gas that `evm_gas` EVM gas buys back at `gas_price`
/// thousandths of an EVM gas per unit (saturating).
pub open spec fn gas_of_evm(evm_gas: u64, gas_price: u64) -> u64 {
    (sat_mul(evm_gas, 1000) / gas_price) as u64
}

/// Whether paying `evm_gas` EVM gas succeeds, and the metering globals after:
/// an exhausted meter or too little gas fails (marking the meter exhausted);
/// otherwise the gas left becomes the EVM gas left, less `evm_gas`, converted back.
pub open spec fn buy_outcome(g: MeterGlobals, gas_price: u64, evm_gas: u64) -> (bool, MeterGlobals) {
    if g.gas_status == 1 {
        (false, g)
    } else {
        let left = evm_gas_of(g.gas_left, gas_price);
        if evm_gas > left {
            (false, MeterGlobals { gas_status: 1, ..g })
        } else {
            (true, MeterGlobals { gas_left: gas_of_evm((left - evm_gas) as u64, gas_price), ..g })
        }
    }
}

/// The host environment of a program.
#[derive(Debug)]
pub struct WasmEnv {
    /// The program's input.
    pub args: Vec<u8>,
    /// The program's output.
    pub outs: Vec<u8>,
    /// The price of the program's gas, in thousandths of an EVM gas.
    pub gas_price: u64,
    /// The instance's metering globals.
    pub gas_globals: MeterGlobals,
}

impl WasmEnv {
    /// An environment for the given input and gas price, with no output and no gas.
    pub fn new(args: &[u8], gas_price: u64) -> (res: Self)
        ensures
            res.args@ == args@,
            res.outs@ == Seq::<u8>::empty(),
            res.gas_price == gas_price,
            res.gas_globals == (MeterGlobals { gas_left: 0, gas_status: 0 }),
    {
        let mut copy: Vec<u8> = Vec::new();
        copy.extend_from_slice(args);
        WasmEnv { args: copy, outs: Vec::new(), gas_price, gas_globals: MeterGlobals { gas_left: 0, gas_status: 0 } }
    }

    /// Pays `evm_gas` EVM gas out of the program's gas: converts the gas left
    /// to EVM gas, deducts, and converts back; without enough, marks the
    /// program out of gas.
    pub fn buy_evm_gas(&mut self, evm_gas: u64) -> (res: MaybeEscape)
        requires
            old(self).gas_price > 0,
        ensures
            final(self).args == old(self).args,
            final(self).outs == old(self).outs,
            final(self).gas_price == old(self).gas_price,
            (res is Ok, final(self).gas_globals) == buy_outcome(old(self).gas_globals, old(self).gas_price, evm_gas),
            res is Err ==> res matches Err(Escape::OutOfGas),
    {
        let mut gas_left = match self.gas_left() {
            MachineMeter::Ready(gas) => gas,
            MachineMeter::Exhausted => return Escape::out_of_gas(),
        };
        let mut evm_gas_left = saturating_mul(gas_left, self.gas_price) / 1000;
        if evm_gas > evm_gas_left {
            self.gas_globals.gas_status = 1;
            return Escape::out_of_gas();
        }
        evm_gas_left = evm_gas_left - evm_gas;
        gas_left = saturating_mul(evm_gas_left, 1000) / self.gas_price;
        self.gas_globals.gas_left = gas_left;
        Ok(())
    }
}

impl MeteredMachine for WasmEnv {
    open spec fn meter(&self) -> MachineMeter {
        if self.gas_globals.gas_status == 1 {
            MachineMeter::Exhausted
        } else {
            MachineMeter::Ready(self.gas_globals.gas_left)
        }
    }

    fn gas_left(&self) -> (res: MachineMeter) {
        if self.gas_globals.gas_status == 1 {
            MachineMeter::Exhausted
        } else {
            MachineMeter::Ready(self.gas_globals.gas_left)
        }
    }

    fn set_gas(&mut self, gas: u64)
        ensures
            final(self).gas_globals == (MeterGlobals { gas_left: gas, gas_status: 0 }),
            final(self).args@ == old(self).args@,
            final(self).outs@ == old(self).outs@,
            final(self).gas_price == old(self).gas_price,
    {
        self.gas_globals.gas_left = gas;
        self.gas_globals.gas_status = 0;
    }
}

proof fn lemma_round_trip_at_most(gas: u64, gas_price: u64, evm_gas: u64)
    requires
        gas_price > 0,
        evm_gas <= evm_gas_of(gas, gas_price),
    ensures
        gas_of_evm((evm_gas_of(gas, gas_price) - evm_gas) as u64, gas_price) <= gas,
{
    let left = evm_gas_of(gas, gas_price);
    let rest = (left - evm_gas) as u64;
    let m = u64::MAX as int;
    if gas * gas_price > u64::MAX {
        assert(left == m / 1000);
        assert(rest * 1000 <= m) by (nonlinear_arith)
            requires rest <= m / 1000, rest >= 0;
        assert(gas_of_evm(rest, gas_price) == (rest * 1000) / (gas_price as int));
        assert((rest * 1000) / (gas_price as int) <= m / (gas_price as int)) by (nonlinear_arith)
            requires rest * 1000 <= m, gas_price > 0, rest >= 0;
        assert(m / (gas_price as int) < gas) by (nonlinear_arith)
            requires gas * gas_price > m, gas_price > 0, gas >= 0;
    } else {
        let p = gas * gas_price;
        assert(left == p / 1000);
        assert(1000 * (p / 1000) <= p) by (nonlinear_arith)
            requires p >= 0;
        assert(rest * 1000 <= p) by (nonlinear_arith)
            requires rest <= p / 1000, 1000 * (p / 1000) <= p, rest >= 0;
        assert(sat_mul(rest, 1000) <= rest * 1000);
        assert((sat_mul(rest, 1000) as int) / (gas_price as int) <= p / (gas_price as int)) by (nonlinear_arith)
            requires sat_mul(rest, 1000) <= p, gas_price > 0, sat_mul(rest, 1000) >= 0;
        assert(p / (gas_price as int) == gas) by (nonlinear_arith)
            requires p == gas * gas_price, gas_price > 0;
    }
}

/// Buying EVM gas never adds to the gas left: what a purchase leaves is at
/// most what there was.
pub proof fn lemma_buying_never_adds_gas(g: MeterGlobals, gas_price: u64, evm_gas: u64)
    requires
        gas_price > 0,
        buy_outcome(g, gas_price, evm_gas).0,
    ensures
        buy_outcome(g, gas_price, evm_gas).1.gas_left <= g.gas_left,
{
    lemma_round_trip_at_most(g.gas_left, gas_price, evm_gas);
}

/// At a price of exactly 1000, a unit of gas is one EVM gas: buying takes
/// exactly the purchase from the gas left.
pub proof fn lemma_buying_at_par(g: MeterGlobals, evm_gas: u64)
    requires
        buy_outcome(g, 1000, evm_gas).0,
        g.gas_left * 1000 <= u64::MAX,
    ensures
        buy_outcome(g, 1000, evm_gas).1.gas_left == g.gas_left - evm_gas,
{
    assert((g.gas_left * 1000) / 1000int == g.gas_left);
    let rest = g.gas_left - evm_gas;
    assert((rest * 1000) / 1000int == rest);
}

/// The EVM gas a program pays to return `len` bytes: 3 per 32-byte word,
/// saturating.
pub open spec fn return_data_evm_gas(len: u32) -> u64 {
    let words = (len as int + 31) / 32;
    if words * 3 > u64::MAX { u64::MAX } else { (words * 3) as u64 }
}

/// Charges the program for returning `len` bytes, then records `data` as its output.
pub fn return_data(env: &mut WasmEnv, len: u32, data: Vec<u8>) -> (res: MaybeEscape)
    requires
        old(env).gas_price > 0,
    ensures
        final(env).args == old(env).args,
        final(env).gas_price == old(env).gas_price,
        (res is Ok, final(env).gas_globals) == buy_outcome(old(env).gas_globals, old(env).gas_price, return_data_evm_gas(len)),
        res is Ok ==> final(env).outs == data,
        res is Err ==> final(env).outs == old(env).outs,
{
    let words = (len as u64 + 31) / 32;
    let evm_gas = words * 3;
    match env.buy_evm_gas(evm_gas) {
        Ok(()) => {},
        Err(e) => return Err(e),
    }
    env.outs = data;
    Ok(())
}

} // verus!
