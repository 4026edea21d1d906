//! The newer call builder of the Stylus SDK, priced in ink, and the handling
//! of what a contract creation returns.

use vstd::prelude::*;
use crate::bytes::{Bytes20, Bytes32};
// After the host call, this builder reads the return data and reports the
// status as the older one does.
pub use crate::langs::call::{call_result, reads_return_data};

verus! {

/// The kind of call.
#[derive(Clone, Copy, Debug, PartialEq, Eq, Structural)]
pub enum CallKind {
    Basic,
    Delegate,
    Static,
}

impl Default for CallKind {
    fn default() -> (res: Self)
        ensures
            res == CallKind::Basic,
    {
        CallKind::Basic
    }
}

/// A call being configured.
#[derive(Clone, Copy, Debug)]
pub struct Call {
    kind: CallKind,
    value: Bytes32,
    ink: Option<u64>,
}

impl Call {
    pub closed spec fn spec_kind(self) -> CallKind {
        self.kind
    }

    pub closed spec fn spec_value(self) -> Bytes32 {
        self.value
    }

    pub closed spec fn spec_ink(self) -> Option<u64> {
        self.ink
    }

    /// A basic call sending no value, with all the ink.
    pub fn new() -> (res: Self)
        ensures
            res.spec_kind() == CallKind::Basic,
            res.spec_value() == crate::bytes::zero_word(),
            res.spec_ink() is None,
    {
        Call { kind: CallKind::Basic, value: Bytes32::zero(), ink: None }
    }

    /// A delegate call, otherwise as `new`.
    pub fn new_delegate() -> (res: Self)
        ensures
            res.spec_kind() == CallKind::Delegate,
            res.spec_value() == crate::bytes::zero_word(),
            res.spec_ink() is None,
    {
        Call { kind: CallKind::Delegate, ..Self::new() }
    }

    /// A static call, otherwise as `new`.
    pub fn new_static() -> (res: Self)
        ensures
            res.spec_kind() == CallKind::Static,
            res.spec_value() == crate::bytes::zero_word(),
            res.spec_ink() is None,
    {
        Call { kind: CallKind::Static, ..Self::new() }
    }

    /// Sets the value to send; only a basic call can send value.
    pub fn value(self, value: Bytes32) -> (res: Self)
        requires
            self.spec_kind() == CallKind::Basic,
        ensures
            res.spec_kind() == self.spec_kind(),
            res.spec_value() == value,
            res.spec_ink() == self.spec_ink(),
    {
        let mut call = self;
        call.value = value;
        call
    }

    /// Limits the ink offered.
    pub fn ink(self, ink: u64) -> (res: Self)
        ensures
            res.spec_kind() == self.spec_kind(),
            res.spec_value() == self.spec_value(),
            res.spec_ink() == Some(ink),
    {
        let mut call = self;
        call.ink = Some(ink);
        call
    }

    /// The ink to offer: the limit, or all of it (the host clamps it by the 63/64 rule).
    pub fn ink_offered(&self) -> (res: u64)
        ensures
            res == match self.spec_ink() { Some(ink) => ink, None => u64::MAX },
    {
        match self.ink {
            Some(ink) => ink,
            None => u64::MAX,
        }
    }

    pub fn kind(&self) -> (res: CallKind)
        ensures
            res == self.spec_kind(),
    {
        self.kind
    }

    pub fn sent_value(&self) -> (res: Bytes32)
        ensures
            res == self.spec_value(),
    {
        self.value
    }
}

impl Default for Call {
    fn default() -> (res: Self)
        ensures
            res.spec_kind() == CallKind::Basic,
            res.spec_value() == crate::bytes::zero_word(),
            res.spec_ink() is None,
    {
        Call::new()
    }
}

/// Whether an address is all zeros, which is how the host reports a failed creation.
pub open spec fn is_zero_address(address: Bytes20) -> bool {
    forall|i: int| 0 <= i < 20 ==> address.0@[i] == 0u8
}

/// The outcome of a contract creation: the new address, or, when the host
/// reports the zero address, the revert data.
pub fn creation_result(contract: Bytes20, revert_data: Vec<u8>) -> (res: Result<Bytes20, Vec<u8>>)
    ensures
        is_zero_address(contract) ==> res == Err::<Bytes20, Vec<u8>>(revert_data),
        !is_zero_address(contract) ==> res == Ok::<Bytes20, Vec<u8>>(contract),
{
    let mut i: usize = 0;
    while i < 20
        invariant
            i <= 20,
            forall|j: int| 0 <= j < i ==> contract.0@[j] == 0u8,
        decreases 20 - i,
    {
        if contract.0[i] != 0 {
            return Ok(contract);
        }
        i = i + 1;
    }
    Err(revert_data)
}

} // verus!
