//! The bookkeeping of the thread that runs Stylus programs for the JIT: one
//! thread serves a call and every call nested in it, started by the
//! outermost call and joined when that call ends; and the host's handling of
//! what that thread sends it while a program runs.

use vstd::prelude::*;

verus! {

/// What a new call asks of the program thread.
#[derive(Clone, Copy, Debug, PartialEq, Eq, Structural)]
pub enum ThreadStep {
    /// No thread runs: start one.
    Spawn,
    /// The running thread serves the call.
    Reuse,
}

/// What the end of a call asks of the program thread.
#[derive(Clone, Copy, Debug, PartialEq, Eq, Structural)]
pub enum ReleaseStep {
    /// The outermost call ended: join the thread.
    Join,
    /// Calls remain: keep the thread.
    Keep,
}

/// The count of calls in flight, and whether a program thread runs.
#[derive(Clone, Copy, Debug, PartialEq, Eq, Structural)]
pub struct StylusThreadHandler {
    pub calls: u64,
    pub has_thread: bool,
}

/// The handler after a call begins.
pub open spec fn increased(h: StylusThreadHandler) -> StylusThreadHandler {
    StylusThreadHandler { calls: (h.calls + 1) as u64, has_thread: true }
}

/// The handler after a call ends.
pub open spec fn decreased(h: StylusThreadHandler) -> StylusThreadHandler {
    StylusThreadHandler { calls: (h.calls - 1) as u64, has_thread: h.calls > 1 }
}

impl StylusThreadHandler {
    /// A thread runs exactly while calls are in flight.
    pub open spec fn well_formed(&self) -> bool {
        self.has_thread <==> self.calls > 0
    }

    /// No calls and no thread.
    pub fn new() -> (res: StylusThreadHandler)
        ensures
            res.calls == 0,
            !res.has_thread,
    {
        StylusThreadHandler { calls: 0, has_thread: false }
    }

    /// Counts a new call; the first one starts the thread.
    pub fn increase_call(&mut self) -> (step: ThreadStep)
        requires
            old(self).well_formed(),
            old(self).calls < u64::MAX,
        ensures
            *final(self) == increased(*old(self)),
            final(self).well_formed(),
            step == (if old(self).calls == 0 { ThreadStep::Spawn } else { ThreadStep::Reuse }),
    {
        self.calls = self.calls + 1;
        if self.calls > 1 {
            return ThreadStep::Reuse;
        }
        self.has_thread = true;
        ThreadStep::Spawn
    }

    /// Ends a call; the last one joins the thread.
    pub fn decrease_call(&mut self) -> (step: ReleaseStep)
        requires
            old(self).well_formed(),
            old(self).calls > 0,
        ensures
            *final(self) == decreased(*old(self)),
            final(self).well_formed(),
            step == (if old(self).calls == 1 { ReleaseStep::Join } else { ReleaseStep::Keep }),
    {
        self.calls = self.calls - 1;
        if self.calls > 0 {
            return ReleaseStep::Keep;
        }
        self.has_thread = false;
        ReleaseStep::Join
    }
}

/// A message from the program thread to the host.
#[derive(Debug)]
pub enum UpMsg<T> {
    /// The program calls a Go function: its id and the arguments.
    Call { func: u32, args: Vec<Vec<u8>> },
    /// The program thread failed with this message.
    Panic(String),
    /// The program finished, with its outcome and the ink left.
    WasmDone { outcome: T, ink_left: u64 },
}

/// What the host does with a message from the program thread.
#[derive(Debug)]
pub enum HostAction<T> {
    /// Run the Go function on the arguments and send its results back.
    CallGo { func: u32, args: Vec<Vec<u8>> },
    /// Stop with the thread's error.
    Fail(String),
    /// The call is over: return the outcome and the ink left, and join the
    /// thread where asked.
    Return { outcome: T, ink_left: u64, release: ReleaseStep },
}

/// The host's step while a program runs: a call into Go is served, a failure
/// ends the run with its message, and the program's end ends the call.
pub fn on_up_message<T>(handler: &mut StylusThreadHandler, msg: UpMsg<T>) -> (action: HostAction<T>)
    requires
        old(handler).well_formed(),
        old(handler).calls > 0,
    ensures
        final(handler).well_formed(),
        match msg {
            UpMsg::Call { func, args } => {
                &&& action == HostAction::<T>::CallGo { func, args }
                &&& *final(handler) == *old(handler)
            },
            UpMsg::Panic(message) => {
                &&& action == HostAction::<T>::Fail(message)
                &&& *final(handler) == *old(handler)
            },
            UpMsg::WasmDone { outcome, ink_left } => {
                &&& action == HostAction::<T>::Return {
                    outcome,
                    ink_left,
                    release: if old(handler).calls == 1 { ReleaseStep::Join } else { ReleaseStep::Keep },
                }
                &&& *final(handler) == decreased(*old(handler))
            },
        },
{
    match msg {
        UpMsg::Call { func, args } => HostAction::CallGo { func, args },
        UpMsg::Panic(message) => HostAction::Fail(message),
        UpMsg::WasmDone { outcome, ink_left } => {
            let release = handler.decrease_call();
            HostAction::Return { outcome, ink_left, release }
        },
    }
}

/// Ending a call undoes beginning it: the count and the thread are as before.
pub proof fn lemma_call_balanced(h: StylusThreadHandler)
    requires
        h.well_formed(),
        h.calls < u64::MAX,
    ensures
        decreased(increased(h)) == h,
{
}

} // verus!
