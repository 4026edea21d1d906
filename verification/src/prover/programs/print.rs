//! A middleware that shows each function's operators as they pass through.

use vstd::prelude::*;
use crate::wasm::operator::Operator;

verus! {

/// The printing middleware.
#[derive(Debug, Default)]
pub struct Printer {}

impl Printer {
    /// The per-function printer for function `func`.
    pub fn instrument(&self, func: u32) -> (res: FuncPrinter)
        ensures
            res.func == func,
    {
        FuncPrinter::new(func)
    }

    pub fn name(&self) -> (res: &'static str)
        ensures
            res@ == "printer"@,
    {
        "printer"
    }
}

/// The per-function printer.
#[derive(Debug)]
pub struct FuncPrinter {
    pub func: u32,
}

impl FuncPrinter {
    pub fn new(func: u32) -> (res: Self)
        ensures
            res.func == func,
    {
        FuncPrinter { func }
    }

    /// Passes the operator through, returning the function index to show it under.
    pub fn feed(&mut self, op: Operator, out: &mut Vec<Operator>) -> (shown_as: u32)
        ensures
            final(out)@ == old(out)@.push(op),
            shown_as == old(self).func,
            final(self).func == old(self).func,
    {
        out.push(op);
        self.func
    }

    pub fn name(&self) -> (res: &'static str)
        ensures
            res@ == "printer"@,
    {
        "printer"
    }
}

} // verus!
