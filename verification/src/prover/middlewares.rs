//! Instrumentation middlewares that rewrite a module and its functions.

pub mod memory;
pub mod meter;
pub mod start;

use vstd::prelude::*;
use crate::wasm::operator::Operator;

verus! {

/// The per-function middleware that passes every operator through unchanged.
#[derive(Debug)]
pub struct DefaultFunctionMiddleware;

impl DefaultFunctionMiddleware {
    /// Passes the operator through.
    pub fn feed(&mut self, op: Operator, out: &mut Vec<Operator>)
        ensures
            final(out)@ == old(out)@.push(op),
    {
        out.push(op);
    }
}

} // verus!
