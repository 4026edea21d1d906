//! Pricing of operators for gas metering.

use vstd::prelude::*;
use crate::wasm::operator::Operator;

verus! {

/// A price list for operators, chosen by whoever configures the metering.
pub trait OperatorCosts {
    /// The price of an operator.
    spec fn spec_cost(&self, op: Operator) -> u64;

    fn cost(&self, op: &Operator) -> (c: u64)
        ensures
            c == self.spec_cost(*op),
    ;
}

/// Every operator costs the same.
#[derive(Clone, Copy, Debug, PartialEq, Eq)]
pub struct UniformCost {
    pub cost: u64,
}

impl OperatorCosts for UniformCost {
    open spec fn spec_cost(&self, op: Operator) -> u64 {
        self.cost
    }

    fn cost(&self, op: &Operator) -> (c: u64) {
        self.cost
    }
}

} // verus!
