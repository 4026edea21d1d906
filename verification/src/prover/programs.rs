//! The Stylus program pipeline: configuration, operator counting, execution
//! outcomes, and the module operations the middlewares rely on.

pub mod config;
pub mod counter;
pub mod exec;
pub mod print;

pub use crate::wasm::module::TransformError;

use vstd::prelude::*;
use crate::wasm::operator::{Operator, ValType};
use crate::wasm::module::{ModuleInfo, FunctionType, decimal, decimal_string};

verus! {

/// The per-function middleware that passes every operator through unchanged.
#[derive(Debug)]
pub struct DefaultFunctionMiddleware;

impl DefaultFunctionMiddleware {
    /// Passes the operator through.
    pub fn feed(&mut self, op: Operator, out: &mut Vec<Operator>)
        ensures
            final(out)@ == old(out)@.push(op),
    {
        out.push(op);
    }
}

/// The globals the proving host reads the gas from.
#[derive(Clone, Copy, Debug, PartialEq, Eq)]
pub struct PolyHostData {
    pub gas_left: u32,
    pub gas_status: u32,
}

impl PolyHostData {
    /// The two global indices, widened.
    pub fn globals(&self) -> (res: (u64, u64))
        ensures
            res == (self.gas_left as u64, self.gas_status as u64),
    {
        (self.gas_left as u64, self.gas_status as u64)
    }
}

fn copy_types(types: &Vec<ValType>) -> (res: Vec<ValType>)
    ensures
        res@ == types@,
{
    let mut res: Vec<ValType> = Vec::new();
    let mut i: usize = 0;
    while i < types.len()
        invariant
            i <= types@.len(),
            res@ == types@.take(i as int),
        decreases types@.len() - i,
    {
        res.push(types[i]);
        proof {
            assert(res@ =~= types@.take(i + 1));
        }
        i = i + 1;
    }
    proof {
        assert(types@.take(types@.len() as int) =~= types@);
    }
    res
}

/// The message for a missing signature.
pub open spec fn missing_signature_message(index: u32) -> Seq<char> {
    "missing signature "@ + decimal(index as u64)
}

impl ModuleInfo {
    /// The signature at `sig`, or an error naming the missing index.
    pub fn get_signature(&self, sig: u32) -> (res: Result<FunctionType, String>)
        ensures
            (sig as int) < self.signatures@.len() ==> (res matches Ok(ty)
                && ty.inputs@ == self.signatures@[sig as int].inputs@
                && ty.outputs@ == self.signatures@[sig as int].outputs@),
            (sig as int) >= self.signatures@.len() ==> (res matches Err(message)
                && message@ == missing_signature_message(sig)),
    {
        let index = sig as usize;
        if index < self.signatures.len() {
            let ty = &self.signatures[index];
            Ok(FunctionType { inputs: copy_types(&ty.inputs), outputs: copy_types(&ty.outputs) })
        } else {
            let mut message = String::from_str("missing signature ");
            let digits = decimal_string(sig as u64);
            message.append(digits.as_str());
            Err(message)
        }
    }

    /// The signature of function `func`, or an error naming the function
    /// (by name when it has one) and its index.
    pub fn get_function(&self, func: u32) -> (res: Result<FunctionType, String>)
        ensures
            (func as int) < self.functions@.len() && (self.functions@[func as int] as int) < self.signatures@.len()
                ==> (res matches Ok(ty)
                && ty.inputs@ == self.signatures@[self.functions@[func as int] as int].inputs@
                && ty.outputs@ == self.signatures@[self.functions@[func as int] as int].outputs@),
            (func as int) < self.functions@.len() && (self.functions@[func as int] as int) >= self.signatures@.len()
                ==> (res matches Err(message) && message@ == missing_signature_message(self.functions@[func as int])),
            (func as int) >= self.functions@.len() ==> (res matches Err(message) && message@ == match self.function_names.get(func) {
                Some(name) => "missing func "@ + name + " @ index "@ + decimal(func as u64),
                None => "missing func @ index "@ + decimal(func as u64),
            }),
    {
        let index = func as usize;
        if index < self.functions.len() {
            return self.get_signature(self.functions[index]);
        }
        let digits = decimal_string(func as u64);
        match self.function_names.find(func) {
            Some(name) => {
                let mut message = String::from_str("missing func ");
                message.append(name.as_str());
                message.append(" @ index ");
                message.append(digits.as_str());
                Err(message)
            },
            None => {
                let mut message = String::from_str("missing func @ index ");
                message.append(digits.as_str());
                Err(message)
            },
        }
    }
}

} // verus!
