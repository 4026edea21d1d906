//! How a program's run on the proving machine ended.

use vstd::prelude::*;
use crate::bytes::{hex_encode, hex_lower};
use crate::polyglot::execute::MachineStatus;
use crate::prover::middlewares::meter::MachineMeter;

verus! {

/// How a program's run ended.
#[derive(Clone, Debug)]
pub enum ExecOutcome {
    Success(Vec<u8>),
    Revert(Vec<u8>),
    Failure(String),
    OutOfGas,
    OutOfStack,
    DivergingFailure,
}

/// The text of an outcome.
pub open spec fn outcome_text(outcome: ExecOutcome) -> Seq<char> {
    match outcome {
        ExecOutcome::Success(output) => "success "@ + hex_lower(output@),
        ExecOutcome::Revert(output) => "revert "@ + hex_lower(output@),
        ExecOutcome::Failure(error) => "failure: "@ + error@,
        ExecOutcome::OutOfGas => "out of gas"@,
        ExecOutcome::OutOfStack => "out of stack"@,
        ExecOutcome::DivergingFailure => "diverging failure"@,
    }
}

impl ExecOutcome {
    /// The outcome as text, outputs in hexadecimal.
    pub fn describe(&self) -> (res: String)
        ensures
            res@ == outcome_text(*self),
    {
        match self {
            ExecOutcome::Success(output) => {
                let mut text = String::from_str("success ");
                let hex = hex_encode(output.as_slice());
                text.append(hex.as_str());
                text
            },
            ExecOutcome::Revert(output) => {
                let mut text = String::from_str("revert ");
                let hex = hex_encode(output.as_slice());
                text.append(hex.as_str());
                text
            },
            ExecOutcome::Failure(error) => {
                let mut text = String::from_str("failure: ");
                text.append(error.as_str());
                text
            },
            ExecOutcome::OutOfGas => String::from_str("out of gas"),
            ExecOutcome::OutOfStack => String::from_str("out of stack"),
            ExecOutcome::DivergingFailure => String::from_str("diverging failure"),
        }
    }
}

/// A machine that runs a program's entry point on given input.
pub trait ExecProgram {
    fn run_main(&mut self, args: Vec<u8>) -> Result<ExecOutcome, String>;
}

/// What each machine status says of a failed entry-point call.
pub open spec fn status_message(status: MachineStatus) -> Seq<char> {
    match status {
        MachineStatus::Running => "machine not done"@,
        MachineStatus::Errored => "machine errored"@,
        MachineStatus::Finished => "machine halted"@,
        MachineStatus::TooFar => "machine reached the too-far state"@,
    }
}

/// The outcome of the entry-point call: by its status (0 succeeds, anything
/// else reverts) with the output, or, when the machine stopped, running out of
/// gas, then out of stack space, before a failure naming the machine's status.
pub fn main_outcome(call: Result<u32, MachineStatus>, meter: MachineMeter, stack_space_left: u32, outs: Vec<u8>) -> (res: ExecOutcome)
    ensures
        call matches Ok(status) ==> if status == 0 { res == ExecOutcome::Success(outs) } else { res == ExecOutcome::Revert(outs) },
        call matches Err(status) ==> {
            if meter == MachineMeter::Exhausted {
                res is OutOfGas
            } else if stack_space_left == 0 {
                res is OutOfStack
            } else {
                res matches ExecOutcome::Failure(e) && e@ == status_message(status)
            }
        },
{
    match call {
        Ok(status) => {
            if status == 0 { ExecOutcome::Success(outs) } else { ExecOutcome::Revert(outs) }
        },
        Err(status) => {
            if meter == MachineMeter::Exhausted {
                return ExecOutcome::OutOfGas;
            }
            if stack_space_left == 0 {
                return ExecOutcome::OutOfStack;
            }
            let error = match status {
                MachineStatus::Running => String::from_str("machine not done"),
                MachineStatus::Errored => String::from_str("machine errored"),
                MachineStatus::Finished => String::from_str("machine halted"),
                MachineStatus::TooFar => String::from_str("machine reached the too-far state"),
            };
            ExecOutcome::Failure(error)
        },
    }
}

} // verus!
