//! EVM gas constants, the opcodes the host reports, and the data a program
//! sees of its call.

use vstd::prelude::*;
use crate::bytes::{Bytes20, Bytes32};

verus! {

/// `params.SstoreSentryGasEIP2200`
pub const SSTORE_SENTRY_GAS: u64 = 2300;
/// `params.LogGas`
pub const LOG_TOPIC_GAS: u64 = 375;
/// `params.LogDataGas`
pub const LOG_DATA_GAS: u64 = 8;
/// `params.CopyGas`
pub const COPY_WORD_GAS: u64 = 3;
/// `params.Keccak256Gas`
pub const KECCAK_256_GAS: u64 = 30;
/// `params.Keccak256WordGas`
pub const KECCAK_WORD_GAS: u64 = 6;
/// `vm.GasQuickStep`
pub const GAS_QUICK_STEP: u64 = 2;
pub const ADDRESS_GAS: u64 = GAS_QUICK_STEP;
pub const BASEFEE_GAS: u64 = GAS_QUICK_STEP;
pub const CHAINID_GAS: u64 = GAS_QUICK_STEP;
pub const COINBASE_GAS: u64 = GAS_QUICK_STEP;
pub const GASLIMIT_GAS: u64 = GAS_QUICK_STEP;
pub const NUMBER_GAS: u64 = GAS_QUICK_STEP;
pub const TIMESTAMP_GAS: u64 = GAS_QUICK_STEP;
pub const GASLEFT_GAS: u64 = GAS_QUICK_STEP;
pub const CALLER_GAS: u64 = GAS_QUICK_STEP;
pub const CALLVALUE_GAS: u64 = GAS_QUICK_STEP;
pub const GASPRICE_GAS: u64 = GAS_QUICK_STEP;
pub const RETURNDATASIZE_GAS: u64 = GAS_QUICK_STEP;
pub const ORIGIN_GAS: u64 = GAS_QUICK_STEP;

/// The EVM opcodes whose host calls are traced.
#[derive(Clone, Copy, Debug, PartialEq, Eq, Structural)]
pub enum Opcode {
    KECCAK256,
    ADDRESS,
    BALANCE,
    ORIGIN,
    CALLER,
    CALLVALUE,
    CALLDATALOAD,
    CALLDATASIZE,
    CALLDATACOPY,
    GASPRICE,
    RETURNDATASIZE,
    RETURNDATACOPY,
    EXTCODEHASH,
    COINBASE,
    TIMESTAMP,
    NUMBER,
    GASLIMIT,
    CHAINID,
    BASEFEE,
    GAS,
    LOG0,
    RETURN,
    REVERT,
}

/// The byte of each opcode in EVM bytecode.
pub open spec fn opcode_byte(op: Opcode) -> u32 {
    match op {
        Opcode::KECCAK256 => 0x20,
        Opcode::ADDRESS => 0x30,
        Opcode::BALANCE => 0x31,
        Opcode::ORIGIN => 0x32,
        Opcode::CALLER => 0x33,
        Opcode::CALLVALUE => 0x34,
        Opcode::CALLDATALOAD => 0x35,
        Opcode::CALLDATASIZE => 0x36,
        Opcode::CALLDATACOPY => 0x37,
        Opcode::GASPRICE => 0x3A,
        Opcode::RETURNDATASIZE => 0x3D,
        Opcode::RETURNDATACOPY => 0x3E,
        Opcode::EXTCODEHASH => 0x3f,
        Opcode::COINBASE => 0x41,
        Opcode::TIMESTAMP => 0x42,
        Opcode::NUMBER => 0x43,
        Opcode::GASLIMIT => 0x45,
        Opcode::CHAINID => 0x46,
        Opcode::BASEFEE => 0x48,
        Opcode::GAS => 0x5A,
        Opcode::LOG0 => 0xA0,
        Opcode::RETURN => 0xF3,
        Opcode::REVERT => 0xFD,
    }
}

impl Opcode {
    /// The opcode's byte in EVM bytecode.
    pub fn code(self) -> (res: u32)
        ensures
            res == opcode_byte(self),
    {
        match self {
            Opcode::KECCAK256 => 0x20,
            Opcode::ADDRESS => 0x30,
            Opcode::BALANCE => 0x31,
            Opcode::ORIGIN => 0x32,
            Opcode::CALLER => 0x33,
            Opcode::CALLVALUE => 0x34,
            Opcode::CALLDATALOAD => 0x35,
            Opcode::CALLDATASIZE => 0x36,
            Opcode::CALLDATACOPY => 0x37,
            Opcode::GASPRICE => 0x3A,
            Opcode::RETURNDATASIZE => 0x3D,
            Opcode::RETURNDATACOPY => 0x3E,
            Opcode::EXTCODEHASH => 0x3f,
            Opcode::COINBASE => 0x41,
            Opcode::TIMESTAMP => 0x42,
            Opcode::NUMBER => 0x43,
            Opcode::GASLIMIT => 0x45,
            Opcode::CHAINID => 0x46,
            Opcode::BASEFEE => 0x48,
            Opcode::GAS => 0x5A,
            Opcode::LOG0 => 0xA0,
            Opcode::RETURN => 0xF3,
            Opcode::REVERT => 0xFD,
        }
    }
}

/// What a program sees of the block, the transaction and its own call.
#[derive(Clone, Copy, Debug, Default)]
pub struct EvmData {
    pub block_basefee: Bytes32,
    pub chainid: Bytes32,
    pub block_coinbase: Bytes20,
    pub block_gas_limit: u64,
    pub block_number: Bytes32,
    pub block_timestamp: u64,
    pub contract_address: Bytes20,
    pub msg_sender: Bytes20,
    pub msg_value: Bytes32,
    pub tx_gas_price: Bytes32,
    pub tx_origin: Bytes20,
    pub tracing_enabled: u8,
    pub return_data_len: u32,
}

/// The number of 32-byte EVM words needed to hold `bytes` bytes.
pub fn evm_words(bytes: u64) -> (res: u64)
    ensures
        res == (bytes + 31) / 32,
        res * 32 >= bytes,
        res * 32 < bytes + 32,
{
    match bytes % 32 {
        0 => bytes / 32,
        _ => bytes / 32 + 1,
    }
}

/// How a user program's call ended.
#[derive(Clone, Copy, Debug, PartialEq, Eq, Structural)]
pub enum UserOutcomeKind {
    Success,
    Revert,
    Failure,
    OutOfInk,
    OutOfStack,
}

/// Whether a call into the EVM succeeded.
#[derive(Clone, Copy, Debug, PartialEq, Eq, Structural)]
pub enum EvmApiStatus {
    Success,
    Failure,
}

impl From<EvmApiStatus> for UserOutcomeKind {
    /// A failed EVM call reverts the program.
    fn from(value: EvmApiStatus) -> (res: Self) {
        match value {
            EvmApiStatus::Success => UserOutcomeKind::Success,
            EvmApiStatus::Failure => UserOutcomeKind::Revert,
        }
    }
}

impl vstd::std_specs::convert::FromSpecImpl<EvmApiStatus> for UserOutcomeKind {
    open spec fn obeys_from_spec() -> bool {
        true
    }

    open spec fn from_spec(value: EvmApiStatus) -> UserOutcomeKind {
        match value {
            EvmApiStatus::Success => UserOutcomeKind::Success,
            EvmApiStatus::Failure => UserOutcomeKind::Revert,
        }
    }
}

impl From<u8> for EvmApiStatus {
    /// Zero is success; any other status is failure.
    fn from(value: u8) -> (res: Self) {
        match value {
            0 => EvmApiStatus::Success,
            _ => EvmApiStatus::Failure,
        }
    }
}

impl vstd::std_specs::convert::FromSpecImpl<u8> for EvmApiStatus {
    open spec fn obeys_from_spec() -> bool {
        true
    }

    open spec fn from_spec(value: u8) -> EvmApiStatus {
        if value == 0 { EvmApiStatus::Success } else { EvmApiStatus::Failure }
    }
}

/// The methods of the EVM interface, in the order the host numbers them.
#[derive(Clone, Copy, Debug, PartialEq, Eq, Structural)]
pub enum EvmApiMethod {
    GetBytes32,
    SetBytes32,
    ContractCall,
    DelegateCall,
    StaticCall,
    Create1,
    Create2,
    GetReturnData,
    EmitLog,
    ReportHostio,
    ReportHostioAdvanced,
    AccountBalance,
    AccountCodeHash,
    AddPages,
}

} // verus!
