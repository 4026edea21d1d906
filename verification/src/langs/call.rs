//! A builder for calls from a Stylus program to another contract.
//!
//! The host calls themselves are WebAssembly imports; this module decides
//! everything around them: whether the call may be made, the gas it is
//! given, how much return data is read back, and how the status is reported.

use vstd::prelude::*;
use crate::bytes::Bytes32;

verus! {

/// The kind of call.
#[derive(Clone, Copy, Debug, PartialEq, Eq, Structural)]
pub enum Kind {
    Basic,
    Delegate,
    Static,
}

impl Default for Kind {
    fn default() -> (res: Self)
        ensures
            res == Kind::Basic,
    {
        Kind::Basic
    }
}

/// A call being configured.
#[derive(Clone, Copy, Debug)]
pub struct Call {
    kind: Kind,
    value: Bytes32,
    gas: Option<u64>,
    offset: u64,
    len: Option<u64>,
}

/// What the host is asked to do for a call, once the call is known to be allowed.
#[derive(Clone, Copy, Debug)]
pub struct CallRequest {
    pub kind: Kind,
    /// The value sent along (basic calls only).
    pub value: Bytes32,
    /// The gas offered; the host clamps it by the 63/64 rule.
    pub gas: u64,
    /// Where in the return data to start reading.
    pub offset: u64,
    /// How much return data to read, if limited.
    pub len: Option<u64>,
}

/// The bytes of "unexpected value".
pub open spec fn unexpected_value_message() -> Seq<u8> {
    seq![117u8, 110, 101, 120, 112, 101, 99, 116, 101, 100, 32, 118, 97, 108, 117, 101]
}

impl Call {
    pub closed spec fn spec_kind(self) -> Kind {
        self.kind
    }

    pub closed spec fn spec_value(self) -> Bytes32 {
        self.value
    }

    pub closed spec fn spec_gas(self) -> Option<u64> {
        self.gas
    }

    pub closed spec fn spec_offset(self) -> u64 {
        self.offset
    }

    pub closed spec fn spec_len(self) -> Option<u64> {
        self.len
    }

    /// A basic call sending no value, with all the gas and all the return data.
    pub fn new() -> (res: Self)
        ensures
            res.spec_kind() == Kind::Basic,
            res.spec_value() == crate::bytes::zero_word(),
            res.spec_gas() is None,
            res.spec_offset() == 0,
            res.spec_len() is None,
    {
        Call { kind: Kind::Basic, value: Bytes32::zero(), gas: None, offset: 0, len: None }
    }

    /// A delegate call, otherwise as `new`.
    pub fn new_delegate() -> (res: Self)
        ensures
            res.spec_kind() == Kind::Delegate,
            res.spec_value() == crate::bytes::zero_word(),
            res.spec_gas() is None,
            res.spec_offset() == 0,
            res.spec_len() is None,
    {
        Call { kind: Kind::Delegate, ..Self::new() }
    }

    /// A static call, otherwise as `new`.
    pub fn new_static() -> (res: Self)
        ensures
            res.spec_kind() == Kind::Static,
            res.spec_value() == crate::bytes::zero_word(),
            res.spec_gas() is None,
            res.spec_offset() == 0,
            res.spec_len() is None,
    {
        Call { kind: Kind::Static, ..Self::new() }
    }

    /// Sets the value to send.
    pub fn value(&mut self, value: Bytes32) -> (res: &mut Self)
        ensures
            res.spec_kind() == old(self).spec_kind(),
            res.spec_value() == value,
            res.spec_gas() == old(self).spec_gas(),
            res.spec_offset() == old(self).spec_offset(),
            res.spec_len() == old(self).spec_len(),
            *final(self) == *final(res),
    {
        self.value = value;
        self
    }

    /// Limits the gas offered.
    pub fn gas(&mut self, gas: u64) -> (res: &mut Self)
        ensures
            res.spec_kind() == old(self).spec_kind(),
            res.spec_value() == old(self).spec_value(),
            res.spec_gas() == Some(gas),
            res.spec_offset() == old(self).spec_offset(),
            res.spec_len() == old(self).spec_len(),
            *final(self) == *final(res),
    {
        self.gas = Some(gas);
        self
    }

    /// Reads back only `len` bytes of return data, starting at `offset`.
    pub fn subset(&mut self, offset: u64, len: u64) -> (res: &mut Self)
        ensures
            res.spec_kind() == old(self).spec_kind(),
            res.spec_value() == old(self).spec_value(),
            res.spec_gas() == old(self).spec_gas(),
            res.spec_offset() == offset,
            res.spec_len() == Some(len),
            *final(self) == *final(res),
    {
        self.offset = offset;
        self.len = Some(len);
        self
    }

    /// Reads back no return data.
    pub fn skip_return_data(&mut self) -> (res: &mut Self)
        ensures
            res.spec_kind() == old(self).spec_kind(),
            res.spec_value() == old(self).spec_value(),
            res.spec_gas() == old(self).spec_gas(),
            res.spec_offset() == old(self).spec_offset(),
            res.spec_len() == Some(0u64),
            *final(self) == *final(res),
    {
        self.len = Some(0);
        self
    }

    /// The request to make, or the error "unexpected value" when a delegate or
    /// static call would send a nonzero value.
    pub fn prepare(&self) -> (res: Result<CallRequest, Vec<u8>>)
        ensures
            match res {
                Ok(req) => {
                    &&& !(self.spec_value() != crate::bytes::zero_word() && self.spec_kind() != Kind::Basic)
                    &&& req.kind == self.spec_kind()
                    &&& req.value == self.spec_value()
                    &&& req.gas == match self.spec_gas() { Some(g) => g, None => u64::MAX }
                    &&& req.offset == self.spec_offset()
                    &&& req.len == self.spec_len()
                },
                Err(message) => {
                    &&& self.spec_value() != crate::bytes::zero_word() && self.spec_kind() != Kind::Basic
                    &&& message@ == unexpected_value_message()
                },
            },
    {
        let zero = Bytes32::zero();
        if self.value != zero && self.kind != Kind::Basic {
            let message: Vec<u8> = vec![117u8, 110, 101, 120, 112, 101, 99, 116, 101, 100, 32, 118, 97, 108, 117, 101];
            proof {
                assert(message@ =~= unexpected_value_message());
            }
            return Err(message);
        }
        let gas = match self.gas {
            Some(gas) => gas,
            None => u64::MAX,
        };
        Ok(CallRequest { kind: self.kind, value: self.value, gas, offset: self.offset, len: self.len })
    }
}

impl Default for Call {
    fn default() -> (res: Self)
        ensures
            res.spec_kind() == Kind::Basic,
            res.spec_value() == crate::bytes::zero_word(),
            res.spec_gas() is None,
            res.spec_offset() == 0,
            res.spec_len() is None,
    {
        Call::new()
    }
}

impl CallRequest {
    /// How many bytes of return data to read: the limit if one was set, else
    /// all that the callee returned.
    pub fn return_data_len(&self, outs_len: usize) -> (res: u64)
        requires
            outs_len <= u64::MAX,
        ensures
            res == match self.len { Some(len) => len, None => outs_len as u64 },
    {
        match self.len {
            Some(len) => len,
            None => outs_len as u64,
        }
    }
}

/// Whether return data of the given length is read back from the host: only
/// when there is some to read (otherwise the data is empty).
pub fn reads_return_data(len: u64) -> (res: bool)
    ensures
        res == (len != 0),
{
    len != 0
}

/// The call's result: its return data, as success when the status is zero and
/// as failure otherwise.
pub fn call_result(status: u8, outs: Vec<u8>) -> (res: Result<Vec<u8>, Vec<u8>>)
    ensures
        status == 0 ==> res == Ok::<Vec<u8>, Vec<u8>>(outs),
        status != 0 ==> res == Err::<Vec<u8>, Vec<u8>>(outs),
{
    match status {
        0 => Ok(outs),
        _ => Err(outs),
    }
}

} // verus!
