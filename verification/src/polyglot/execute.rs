//! How a program's run ended, decided from what the runtime reports.

use vstd::prelude::*;
use crate::bytes::{hex_encode, hex_lower};
use crate::polyglot::machine::Escape;
use crate::prover::middlewares::meter::MachineMeter;
use crate::wasm::module::{decimal, decimal_string};

verus! {

/// How a program's run ended.
#[derive(Clone, Debug)]
pub enum ExecOutcome {
    NoStart,
    Success(Vec<u8>),
    Revert(Vec<u8>),
    Failure(String),
    OutOfGas,
    OutOfStack,
    StackOverflow,
    FatalError(String),
}

/// Two outcomes agree when they are of the same kind and, for a success or a
/// revert, carry the same output; failure messages are not compared.
pub open spec fn same_outcome(a: ExecOutcome, b: ExecOutcome) -> bool {
    match (a, b) {
        (ExecOutcome::NoStart, ExecOutcome::NoStart) => true,
        (ExecOutcome::Failure(_), ExecOutcome::Failure(_)) => true,
        (ExecOutcome::OutOfGas, ExecOutcome::OutOfGas) => true,
        (ExecOutcome::OutOfStack, ExecOutcome::OutOfStack) => true,
        (ExecOutcome::StackOverflow, ExecOutcome::StackOverflow) => true,
        (ExecOutcome::FatalError(_), ExecOutcome::FatalError(_)) => true,
        (ExecOutcome::Success(x), ExecOutcome::Success(y)) => x@ == y@,
        (ExecOutcome::Revert(x), ExecOutcome::Revert(y)) => x@ == y@,
        _ => false,
    }
}

fn same_bytes(a: &Vec<u8>, b: &Vec<u8>) -> (res: bool)
    ensures
        res == (a@ == b@),
{
    if a.len() != b.len() {
        return false;
    }
    let mut i: usize = 0;
    while i < a.len()
        invariant
            a@.len() == b@.len(),
            i <= a@.len(),
            forall|j: int| 0 <= j < i ==> a@[j] == b@[j],
        decreases a@.len() - i,
    {
        if a[i] != b[i] {
            return false;
        }
        i = i + 1;
    }
    proof {
        assert(a@ =~= b@);
    }
    true
}

impl PartialEq for ExecOutcome {
    fn eq(&self, other: &Self) -> (res: bool) {
        match (self, other) {
            (ExecOutcome::NoStart, ExecOutcome::NoStart) => true,
            (ExecOutcome::Failure(_), ExecOutcome::Failure(_)) => true,
            (ExecOutcome::OutOfGas, ExecOutcome::OutOfGas) => true,
            (ExecOutcome::OutOfStack, ExecOutcome::OutOfStack) => true,
            (ExecOutcome::StackOverflow, ExecOutcome::StackOverflow) => true,
            (ExecOutcome::FatalError(_), ExecOutcome::FatalError(_)) => true,
            (ExecOutcome::Success(x), ExecOutcome::Success(y)) => same_bytes(x, y),
            (ExecOutcome::Revert(x), ExecOutcome::Revert(y)) => same_bytes(x, y),
            _ => false,
        }
    }
}

impl vstd::std_specs::cmp::PartialEqSpecImpl for ExecOutcome {
    open spec fn obeys_eq_spec() -> bool {
        true
    }

    open spec fn eq_spec(&self, other: &Self) -> bool {
        same_outcome(*self, *other)
    }
}

/// The text of an outcome.
pub open spec fn outcome_text(outcome: ExecOutcome) -> Seq<char> {
    match outcome {
        ExecOutcome::NoStart => "no start"@,
        ExecOutcome::Success(output) => "success "@ + hex_lower(output@),
        ExecOutcome::Revert(output) => "revert "@ + hex_lower(output@),
        ExecOutcome::Failure(error) => "failure: "@ + error@,
        ExecOutcome::OutOfGas => "out of gas"@,
        ExecOutcome::OutOfStack => "out of stack"@,
        ExecOutcome::StackOverflow => "stack overflow"@,
        ExecOutcome::FatalError(error) => "fatal error: "@ + error@,
    }
}

impl ExecOutcome {
    /// The outcome as text, outputs in hexadecimal.
    pub fn describe(&self) -> (res: String)
        ensures
            res@ == outcome_text(*self),
    {
        match self {
            ExecOutcome::NoStart => String::from_str("no start"),
            ExecOutcome::Success(output) => {
                let mut text = String::from_str("success ");
                let hex = hex_encode(output.as_slice());
                text.append(hex.as_str());
                text
            },
            ExecOutcome::Revert(output) => {
                let mut text = String::from_str("revert ");
                let hex = hex_encode(output.as_slice());
                text.append(hex.as_str());
                text
            },
            ExecOutcome::Failure(error) => {
                let mut text = String::from_str("failure: ");
                text.append(error.as_str());
                text
            },
            ExecOutcome::OutOfGas => String::from_str("out of gas"),
            ExecOutcome::OutOfStack => String::from_str("out of stack"),
            ExecOutcome::StackOverflow => String::from_str("stack overflow"),
            ExecOutcome::FatalError(error) => {
                let mut text = String::from_str("fatal error: ");
                text.append(error.as_str());
                text
            },
        }
    }
}

/// Whether `pattern` occurs in `text`.
pub open spec fn contains_text(text: Seq<char>, pattern: Seq<char>) -> bool {
    exists|i: int| 0 <= i <= text.len() - pattern.len() && #[trigger] text.subrange(i, i + pattern.len()) == pattern
}

/// The characters of `text`, in order.
pub fn char_vec(text: &str) -> (res: Vec<char>)
    ensures
        res@ == text@,
{
    broadcast use vstd::string::axiom_spec_iter;
    let mut res: Vec<char> = Vec::new();
    for c in it: text.chars()
        invariant
            it.seq() == text@,
            res@ == it.seq().take(it.index() as int),
    {
        proof {
            assert(it.seq().take(it.index() + 1) =~= it.seq().take(it.index() as int).push(c));
        }
        res.push(c);
    }
    proof {
        assert(res@ =~= text@);
    }
    res
}

/// Whether `pattern` occurs in `text` starting at `start`.
fn matches_at(text: &Vec<char>, pattern: &Vec<char>, start: usize) -> (res: bool)
    requires
        start + pattern@.len() <= text@.len(),
    ensures
        res == (text@.subrange(start as int, start + pattern@.len()) == pattern@),
{
    let len = text.len();
    let mut j: usize = 0;
    while j < pattern.len()
        invariant
            j <= pattern@.len(),
            start + pattern@.len() <= text@.len(),
            len == text@.len(),
            forall|k: int| 0 <= k < j ==> text@[start + k] == pattern@[k],
        decreases pattern@.len() - j,
    {
        if text[start + j] != pattern[j] {
            proof {
                let window = text@.subrange(start as int, start + pattern@.len());
                assert(window[j as int] != pattern@[j as int]);
            }
            return false;
        }
        j = j + 1;
    }
    proof {
        assert(text@.subrange(start as int, start + pattern@.len()) =~= pattern@);
    }
    true
}

/// Whether `pattern` occurs in `text` (as `str::contains` does with a string pattern).
pub fn str_contains(text: &str, pattern: &str) -> (res: bool)
    ensures
        res == contains_text(text@, pattern@),
{
    let chars = char_vec(text);
    let wanted = char_vec(pattern);
    if wanted.len() > chars.len() {
        return false;
    }
    let last = chars.len() - wanted.len();
    let mut i: usize = 0;
    loop
        invariant
            chars@ == text@,
            wanted@ == pattern@,
            last == chars@.len() - wanted@.len(),
            i <= last,
            forall|k: int| 0 <= k < i ==> #[trigger] text@.subrange(k, k + pattern@.len()) != pattern@,
        decreases last - i,
    {
        if matches_at(&chars, &wanted, i) {
            return true;
        }
        if i == last {
            return false;
        }
        i = i + 1;
    }
}

/// The outcome of running a program's moved start function: none to run, a
/// success, or, for a failure, running out of gas, then running out of stack
/// space, then an exhausted native call stack, before any other failure.
pub fn start_outcome(start: Option<Result<(), String>>, meter: MachineMeter, stack_space_left: u32) -> (res: ExecOutcome)
    ensures
        start is None ==> res is NoStart,
        start matches Some(Ok(())) ==> res matches ExecOutcome::Success(out) && out@.len() == 0,
        start matches Some(Err(error)) ==> {
            if meter == MachineMeter::Exhausted {
                res is OutOfGas
            } else if stack_space_left == 0 {
                res is OutOfStack
            } else if contains_text(error@, "RuntimeError: call stack exhausted"@) {
                res is StackOverflow
            } else {
                res matches ExecOutcome::Failure(e) && e@ == error@
            }
        },
{
    match start {
        None => ExecOutcome::NoStart,
        Some(Ok(())) => ExecOutcome::Success(Vec::new()),
        Some(Err(error)) => {
            if let MachineMeter::Exhausted = meter {
                return ExecOutcome::OutOfGas;
            }
            if stack_space_left == 0 {
                return ExecOutcome::OutOfStack;
            }
            if str_contains(error.as_str(), "RuntimeError: call stack exhausted") {
                ExecOutcome::StackOverflow
            } else {
                ExecOutcome::Failure(error)
            }
        },
    }
}

/// The outcome of running a program's entry point: its status (0 succeeds,
/// anything else reverts) with its output, or, when it stopped early, running
/// out of stack space, then out of gas, before the reason it gave.
pub fn main_outcome(call: Result<i32, Escape>, stack_space_left: u32, meter: MachineMeter, outs: Vec<u8>) -> (res: ExecOutcome)
    ensures
        call matches Ok(status) ==> if status == 0 { res == ExecOutcome::Success(outs) } else { res == ExecOutcome::Revert(outs) },
        call matches Err(escape) ==> {
            if stack_space_left == 0 {
                res is OutOfStack
            } else if meter == MachineMeter::Exhausted {
                res is OutOfGas
            } else {
                match escape {
                    Escape::OutOfGas => res is OutOfGas,
                    Escape::Failure(err) => res matches ExecOutcome::Failure(e) && e@ == err@,
                    Escape::HostIO(err) => res matches ExecOutcome::Failure(e) && e@ == err@,
                    Escape::Exit(code) => res matches ExecOutcome::Failure(e) && e@ == "exited with code "@ + decimal(code as u64),
                }
            }
        },
{
    match call {
        Ok(status) => {
            if status == 0 { ExecOutcome::Success(outs) } else { ExecOutcome::Revert(outs) }
        },
        Err(escape) => {
            if stack_space_left == 0 {
                return ExecOutcome::OutOfStack;
            }
            if meter == MachineMeter::Exhausted {
                return ExecOutcome::OutOfGas;
            }
            match escape {
                Escape::OutOfGas => ExecOutcome::OutOfGas,
                Escape::Failure(err) => ExecOutcome::Failure(err),
                Escape::HostIO(err) => ExecOutcome::Failure(err),
                Escape::Exit(code) => {
                    let mut text = String::from_str("exited with code ");
                    let digits = decimal_string(code as u64);
                    text.append(digits.as_str());
                    ExecOutcome::Failure(text)
                },
            }
        },
    }
}

/// The status the native entry points report for success.
pub const POLYGLOT_SUCCESS: usize = 0;

/// The status the native entry points report for a revert or a failure.
pub const POLYGLOT_FAILURE: usize = 1;

/// What the native call entry point hands back for a program's outcome: the
/// output with success or failure status for a success or a revert, and for
/// anything else the outcome's text, in UTF-8, with failure status.
pub fn polyglot_output(outcome: ExecOutcome) -> (res: (Vec<u8>, usize))
    ensures
        match outcome {
            ExecOutcome::Success(output) => res.0@ == output@ && res.1 == POLYGLOT_SUCCESS,
            ExecOutcome::Revert(output) => res.0@ == output@ && res.1 == POLYGLOT_FAILURE,
            _ => res.0@ == vstd::utf8::encode_utf8(outcome_text(outcome)) && res.1 == POLYGLOT_FAILURE,
        },
{
    match outcome {
        ExecOutcome::Success(output) => (output, POLYGLOT_SUCCESS),
        ExecOutcome::Revert(output) => (output, POLYGLOT_FAILURE),
        _ => {
            let text = outcome.describe();
            let bytes = vstd::slice::slice_to_vec(text.as_str().as_bytes());
            (bytes, POLYGLOT_FAILURE)
        },
    }
}

/// What the native compile entry point hands back: the instrumented module
/// with success status, or the error's text, in UTF-8, with failure status.
pub fn compile_output(result: Result<Vec<u8>, String>) -> (res: (Vec<u8>, usize))
    ensures
        match result {
            Ok(module) => res.0@ == module@ && res.1 == POLYGLOT_SUCCESS,
            Err(error) => res.0@ == vstd::utf8::encode_utf8(error@) && res.1 == POLYGLOT_FAILURE,
        },
{
    match result {
        Ok(module) => (module, POLYGLOT_SUCCESS),
        Err(error) => (vstd::slice::slice_to_vec(error.as_str().as_bytes()), POLYGLOT_FAILURE),
    }
}

} // verus!

verus! {

/// Where the proving machine stopped.
#[derive(Clone, Copy, Debug, PartialEq, Eq, Structural)]
pub enum MachineStatus {
    Running,
    Finished,
    Errored,
    TooFar,
}

/// The outcome of a failed call on the proving machine: running out of gas,
/// then out of stack space, before the machine's status, which must be one a
/// failed call can leave (not finished, not too far).
pub fn machine_failure_outcome(status: MachineStatus, meter: MachineMeter, stack_space_left: u32) -> (res: ExecOutcome)
    requires
        meter != MachineMeter::Exhausted && stack_space_left != 0 ==> (status == MachineStatus::Running
            || status == MachineStatus::Errored),
    ensures
        meter == MachineMeter::Exhausted ==> res is OutOfGas,
        meter != MachineMeter::Exhausted && stack_space_left == 0 ==> res is OutOfStack,
        meter != MachineMeter::Exhausted && stack_space_left != 0 ==> {
            &&& status == MachineStatus::Running ==> (res matches ExecOutcome::FatalError(e) && e@ == "not done"@)
            &&& status == MachineStatus::Errored ==> (res matches ExecOutcome::Failure(e) && e@ == "error"@)
        },
{
    if let MachineMeter::Exhausted = meter {
        return ExecOutcome::OutOfGas;
    }
    if stack_space_left == 0 {
        return ExecOutcome::OutOfStack;
    }
    match status {
        MachineStatus::Running => ExecOutcome::FatalError(String::from_str("not done")),
        MachineStatus::Errored => ExecOutcome::Failure(String::from_str("error")),
        MachineStatus::Finished => {
            assert(false);
            ExecOutcome::OutOfGas
        },
        MachineStatus::TooFar => {
            assert(false);
            ExecOutcome::OutOfGas
        },
    }
}

} // verus!
