//! The host functions the prover links into every machine: the WAVM bodies
//! behind the `env` imports, and the internal functions each module gets.

use vstd::prelude::*;
use crate::prover::programs::PolyHostData;

verus! {

use ArbValueType::{I32, I64};

/// A value type of the WAVM machine.
#[derive(Clone, Copy, Debug, PartialEq, Eq, Structural)]
pub enum ArbValueType {
    I32,
    I64,
    F32,
    F64,
    RefNull,
    FuncRef,
    InternalRef,
}

/// The inbox a message is read from.
#[derive(Clone, Copy, Debug, PartialEq, Eq, Structural)]
pub enum InboxIdentifier {
    Sequencer,
    Delayed,
}

/// The number that identifies an inbox in an instruction's argument.
pub open spec fn inbox_number(inbox: InboxIdentifier) -> u64 {
    match inbox {
        InboxIdentifier::Sequencer => 0,
        InboxIdentifier::Delayed => 1,
    }
}

impl InboxIdentifier {
    /// The number that identifies the inbox in an instruction's argument.
    pub fn number(&self) -> (res: u64)
        ensures
            res == inbox_number(*self),
    {
        match self {
            InboxIdentifier::Sequencer => 0,
            InboxIdentifier::Delayed => 1,
        }
    }
}

/// The WAVM opcodes that host functions are made of.
#[derive(Clone, Copy, Debug, PartialEq, Eq, Structural)]
pub enum Opcode {
    InitFrame,
    Return,
    LocalGet,
    GlobalGet,
    GlobalSet,
    MemoryLoad { ty: ArbValueType, bytes: u8, signed: bool },
    MemoryStore { ty: ArbValueType, bytes: u8 },
    CallerModuleInternalCall,
    CurrentModule,
    LinkModule,
    GetGlobalStateBytes32,
    SetGlobalStateBytes32,
    GetGlobalStateU64,
    SetGlobalStateU64,
    ReadPreImage,
    ReadInboxMessage,
    HaltAndSetFinished,
}

/// A WAVM instruction: an opcode and its argument.
#[derive(Clone, Copy, Debug, PartialEq, Eq, Structural)]
pub struct Instruction {
    pub opcode: Opcode,
    pub argument_data: u64,
}

impl Instruction {
    /// An instruction without an argument.
    pub fn simple(opcode: Opcode) -> (res: Instruction)
        ensures
            res == (Instruction { opcode, argument_data: 0 }),
    {
        Instruction { opcode, argument_data: 0 }
    }

    /// An instruction with an argument.
    pub fn with_data(opcode: Opcode, argument_data: u64) -> (res: Instruction)
        ensures
            res == (Instruction { opcode, argument_data }),
    {
        Instruction { opcode, argument_data }
    }
}

/// A function's signature in the machine.
#[derive(Debug)]
pub struct FunctionType {
    pub inputs: Vec<ArbValueType>,
    pub outputs: Vec<ArbValueType>,
}

impl FunctionType {
    /// A signature from its inputs and outputs.
    pub fn new(inputs: Vec<ArbValueType>, outputs: Vec<ArbValueType>) -> (res: FunctionType)
        ensures
            res.inputs@ == inputs@,
            res.outputs@ == outputs@,
    {
        FunctionType { inputs, outputs }
    }
}

/// A machine function: its signature, its code and the types of its locals.
#[derive(Debug)]
pub struct Function {
    pub ty: FunctionType,
    pub code: Vec<Instruction>,
    pub local_types: Vec<ArbValueType>,
}

/// A simple instruction, as a spec.
pub open spec fn simple(opcode: Opcode) -> Instruction {
    Instruction { opcode, argument_data: 0 }
}

/// An instruction with an argument, as a spec.
pub open spec fn with_data(opcode: Opcode, data: u64) -> Instruction {
    Instruction { opcode, argument_data: data }
}

/// The first `n` locals pushed in order.
pub open spec fn get_locals(n: nat) -> Seq<Instruction> {
    Seq::new(n, |i: int| with_data(Opcode::LocalGet, i as u64))
}

/// A host function's signature and body.
pub struct HostImpl {
    pub inputs: Seq<ArbValueType>,
    pub outputs: Seq<ArbValueType>,
    pub body: Seq<Instruction>,
}

/// A host function whose body passes its arguments to an opcode.
pub open spec fn forward(inputs: Seq<ArbValueType>, outputs: Seq<ArbValueType>, last: Instruction) -> HostImpl {
    HostImpl { inputs, outputs, body: get_locals(inputs.len()).push(last) }
}

/// The host function behind the import `name` of `module`, if there is one.
pub open spec fn host_impl(module: Seq<char>, name: Seq<char>) -> Option<HostImpl> {
    let i32 = ArbValueType::I32;
    let i64 = ArbValueType::I64;
    let internal = |n: u64| with_data(Opcode::CallerModuleInternalCall, n);
    if module != "env"@ {
        None
    } else if name == "wavm_caller_load8"@ {
        Some(forward(seq![i32], seq![i32], internal(0)))
    } else if name == "wavm_caller_load32"@ {
        Some(forward(seq![i32], seq![i32], internal(1)))
    } else if name == "wavm_caller_store8"@ {
        Some(forward(seq![i32, i32], seq![], internal(2)))
    } else if name == "wavm_caller_store32"@ {
        Some(forward(seq![i32, i32], seq![], internal(3)))
    } else if name == "wavm_get_globalstate_bytes32"@ {
        Some(forward(seq![i32, i32], seq![], simple(Opcode::GetGlobalStateBytes32)))
    } else if name == "wavm_set_globalstate_bytes32"@ {
        Some(forward(seq![i32, i32], seq![], simple(Opcode::SetGlobalStateBytes32)))
    } else if name == "wavm_get_globalstate_u64"@ {
        Some(forward(seq![i32], seq![i64], simple(Opcode::GetGlobalStateU64)))
    } else if name == "wavm_set_globalstate_u64"@ {
        Some(forward(seq![i32, i64], seq![], simple(Opcode::SetGlobalStateU64)))
    } else if name == "wavm_read_pre_image"@ {
        Some(forward(seq![i32, i32], seq![i32], simple(Opcode::ReadPreImage)))
    } else if name == "wavm_read_inbox_message"@ {
        Some(forward(seq![i64, i32, i32], seq![i32],
            with_data(Opcode::ReadInboxMessage, inbox_number(InboxIdentifier::Sequencer))))
    } else if name == "wavm_read_delayed_inbox_message"@ {
        Some(forward(seq![i64, i32, i32], seq![i32],
            with_data(Opcode::ReadInboxMessage, inbox_number(InboxIdentifier::Delayed))))
    } else if name == "wavm_get_caller_module"@ {
        Some(forward(seq![], seq![], simple(Opcode::CurrentModule)))
    } else if name == "wavm_link_module"@ {
        Some(forward(seq![i32], seq![], simple(Opcode::LinkModule)))
    } else if name == "wavm_halt_and_set_finished"@ {
        Some(forward(seq![], seq![], simple(Opcode::HaltAndSetFinished)))
    } else if name == "poly_wavm_gas_left"@ {
        Some(forward(seq![], seq![i64], internal(4)))
    } else if name == "poly_wavm_gas_status"@ {
        Some(forward(seq![], seq![i32], internal(5)))
    } else if name == "poly_wavm_set_gas"@ {
        Some(forward(seq![i64, i32], seq![], internal(6)))
    } else {
        None
    }
}

/// The name of a `str` as `{:?}` renders it: quoted, with escapes.
pub uninterp spec fn str_debug(s: Seq<char>) -> Seq<char>;

/// std's `Debug` for `str`, through `format!("{:?}")`.
#[verifier::external_body]
fn debug_str(s: &str) -> (res: String)
    ensures
        res@ == str_debug(s@),
{
    format!("{:?}", s)
}

/// An import that no host function implements.
#[derive(Debug)]
pub struct UnsupportedImport {
    pub module: String,
    pub name: String,
}

impl UnsupportedImport {
    /// The error's message.
    pub fn describe(&self) -> (res: String)
        ensures
            res@ == "Unsupported import of "@ + str_debug(self.module@) + " "@ + str_debug(self.name@),
    {
        let mut text = String::from_str("Unsupported import of ");
        let module = debug_str(self.module.as_str());
        text.append(module.as_str());
        text.append(" ");
        let name = debug_str(self.name.as_str());
        text.append(name.as_str());
        proof {
            reveal_strlit("Unsupported import of ");
            reveal_strlit(" ");
        }
        text
    }
}

fn str_is(a: &str, b: &str) -> (res: bool)
    ensures
        res == (a@ == b@),
{
    let a = a.to_owned();
    let b = b.to_owned();
    a == b
}

fn get_locals_code(n: u64) -> (res: Vec<Instruction>)
    ensures
        res@ == get_locals(n as nat),
{
    let mut code: Vec<Instruction> = Vec::new();
    let mut i: u64 = 0;
    while i < n
        invariant
            i <= n,
            code@ == get_locals(i as nat),
        decreases n - i,
    {
        code.push(Instruction::with_data(Opcode::LocalGet, i));
        proof {
            assert(code@ =~= get_locals((i + 1) as nat));
        }
        i = i + 1;
    }
    code
}

fn forward_impl(inputs: Vec<ArbValueType>, outputs: Vec<ArbValueType>, last: Instruction) -> (res: (FunctionType, Vec<Instruction>))
    ensures
        res.0.inputs@ == forward(inputs@, outputs@, last).inputs,
        res.0.outputs@ == forward(inputs@, outputs@, last).outputs,
        res.1@ == forward(inputs@, outputs@, last).body,
{
    let mut code = get_locals_code(inputs.len() as u64);
    code.push(last);
    (FunctionType::new(inputs, outputs), code)
}

/// The signature and WAVM body of the host function behind an import; an
/// import of anything else is refused.
pub fn get_host_impl(module: &str, name: &str) -> (res: Result<(FunctionType, Vec<Instruction>), UnsupportedImport>)
    ensures
        match res {
            Ok((ty, body)) => host_impl(module@, name@) matches Some(h)
                && ty.inputs@ == h.inputs && ty.outputs@ == h.outputs && body@ == h.body,
            Err(e) => host_impl(module@, name@) is None && e.module@ == module@ && e.name@ == name@,
        },
{
    let internal = Opcode::CallerModuleInternalCall;
    if !str_is(module, "env") {
        return Err(UnsupportedImport { module: module.to_owned(), name: name.to_owned() });
    }
    let r = if str_is(name, "wavm_caller_load8") {
        forward_impl(vec![I32], vec![I32], Instruction::with_data(internal, 0))
    } else if str_is(name, "wavm_caller_load32") {
        forward_impl(vec![I32], vec![I32], Instruction::with_data(internal, 1))
    } else if str_is(name, "wavm_caller_store8") {
        forward_impl(vec![I32, I32], vec![], Instruction::with_data(internal, 2))
    } else if str_is(name, "wavm_caller_store32") {
        forward_impl(vec![I32, I32], vec![], Instruction::with_data(internal, 3))
    } else if str_is(name, "wavm_get_globalstate_bytes32") {
        forward_impl(vec![I32, I32], vec![], Instruction::simple(Opcode::GetGlobalStateBytes32))
    } else if str_is(name, "wavm_set_globalstate_bytes32") {
        forward_impl(vec![I32, I32], vec![], Instruction::simple(Opcode::SetGlobalStateBytes32))
    } else if str_is(name, "wavm_get_globalstate_u64") {
        forward_impl(vec![I32], vec![I64], Instruction::simple(Opcode::GetGlobalStateU64))
    } else if str_is(name, "wavm_set_globalstate_u64") {
        forward_impl(vec![I32, I64], vec![], Instruction::simple(Opcode::SetGlobalStateU64))
    } else if str_is(name, "wavm_read_pre_image") {
        forward_impl(vec![I32, I32], vec![I32], Instruction::simple(Opcode::ReadPreImage))
    } else if str_is(name, "wavm_read_inbox_message") {
        let inbox = InboxIdentifier::Sequencer.number();
        forward_impl(vec![I64, I32, I32], vec![I32], Instruction::with_data(Opcode::ReadInboxMessage, inbox))
    } else if str_is(name, "wavm_read_delayed_inbox_message") {
        let inbox = InboxIdentifier::Delayed.number();
        forward_impl(vec![I64, I32, I32], vec![I32], Instruction::with_data(Opcode::ReadInboxMessage, inbox))
    } else if str_is(name, "wavm_get_caller_module") {
        forward_impl(vec![], vec![], Instruction::simple(Opcode::CurrentModule))
    } else if str_is(name, "wavm_link_module") {
        forward_impl(vec![I32], vec![], Instruction::simple(Opcode::LinkModule))
    } else if str_is(name, "wavm_halt_and_set_finished") {
        forward_impl(vec![], vec![], Instruction::simple(Opcode::HaltAndSetFinished))
    } else if str_is(name, "poly_wavm_gas_left") {
        forward_impl(vec![], vec![I64], Instruction::with_data(internal, 4))
    } else if str_is(name, "poly_wavm_gas_status") {
        forward_impl(vec![], vec![I32], Instruction::with_data(internal, 5))
    } else if str_is(name, "poly_wavm_set_gas") {
        forward_impl(vec![I64, I32], vec![], Instruction::with_data(internal, 6))
    } else {
        return Err(UnsupportedImport { module: module.to_owned(), name: name.to_owned() });
    };
    Ok(r)
}

/// The body of an internal function: a frame, the code, and a return.
pub open spec fn framed(code: Seq<Instruction>) -> Seq<Instruction> {
    seq![simple(Opcode::InitFrame)] + code + seq![simple(Opcode::Return)]
}

/// The internal functions every module gets, in order: the caller-memory
/// loads and stores, then, for a polyglot host, the gas accessors over its
/// two globals.
pub open spec fn internal_funcs(poly_host: Option<PolyHostData>) -> Seq<HostImpl> {
    let i32 = ArbValueType::I32;
    let i64 = ArbValueType::I64;
    let op = |opcode: Opcode| framed(seq![simple(opcode)]);
    let memory = seq![
        HostImpl { inputs: seq![i32], outputs: seq![i32],
            body: op(Opcode::MemoryLoad { ty: i32, bytes: 1, signed: false }) },
        HostImpl { inputs: seq![i32], outputs: seq![i32],
            body: op(Opcode::MemoryLoad { ty: i32, bytes: 4, signed: false }) },
        HostImpl { inputs: seq![i32], outputs: seq![i32],
            body: op(Opcode::MemoryStore { ty: i32, bytes: 1 }) },
        HostImpl { inputs: seq![i32], outputs: seq![i32],
            body: op(Opcode::MemoryStore { ty: i32, bytes: 4 }) },
    ];
    match poly_host {
        None => memory,
        Some(host) => {
            let gas = host.gas_left as u64;
            let status = host.gas_status as u64;
            memory + seq![
                HostImpl { inputs: seq![], outputs: seq![i64],
                    body: framed(seq![with_data(Opcode::GlobalGet, gas)]) },
                HostImpl { inputs: seq![], outputs: seq![i32],
                    body: framed(seq![with_data(Opcode::GlobalGet, status)]) },
                HostImpl { inputs: seq![i64, i32], outputs: seq![],
                    body: framed(seq![with_data(Opcode::GlobalSet, status), with_data(Opcode::GlobalSet, gas)]) },
            ]
        },
    }
}

/// The access to the caller's memory that each caller-memory import names:
/// a load or store of one byte or of four.
pub open spec fn caller_memory_access(name: Seq<char>) -> Option<Opcode> {
    let i32 = ArbValueType::I32;
    if name == "wavm_caller_load8"@ {
        Some(Opcode::MemoryLoad { ty: i32, bytes: 1, signed: false })
    } else if name == "wavm_caller_load32"@ {
        Some(Opcode::MemoryLoad { ty: i32, bytes: 4, signed: false })
    } else if name == "wavm_caller_store8"@ {
        Some(Opcode::MemoryStore { ty: i32, bytes: 1 })
    } else if name == "wavm_caller_store32"@ {
        Some(Opcode::MemoryStore { ty: i32, bytes: 4 })
    } else {
        None
    }
}

/// Each caller-memory import passes its arguments to an internal function of
/// the module, and that function makes exactly the access the import names
/// (so different imports call different internal functions), whatever the
/// polyglot host.
pub proof fn lemma_caller_memory_imports(name: Seq<char>, poly_host: Option<PolyHostData>)
    requires
        caller_memory_access(name) is Some,
    ensures
        host_impl("env"@, name) matches Some(h) && {
            let call = h.body.last();
            &&& h.body.len() > 0
            &&& call.opcode == Opcode::CallerModuleInternalCall
            &&& call.argument_data < internal_funcs(poly_host).len()
            &&& internal_funcs(poly_host)[call.argument_data as int].body
                == framed(seq![simple(caller_memory_access(name)->0)])
        },
{
    reveal_strlit("env");
    reveal_strlit("wavm_caller_load8");
    reveal_strlit("wavm_caller_load32");
    reveal_strlit("wavm_caller_store8");
    reveal_strlit("wavm_caller_store32");
}

/// What each polyglot gas import does to the host's two metering globals:
/// read the gas left, read the status, or set both (status first, as the
/// arguments come off the stack in reverse).
pub open spec fn polyglot_gas_code(name: Seq<char>, host: PolyHostData) -> Option<Seq<Instruction>> {
    let gas = host.gas_left as u64;
    let status = host.gas_status as u64;
    if name == "poly_wavm_gas_left"@ {
        Some(seq![with_data(Opcode::GlobalGet, gas)])
    } else if name == "poly_wavm_gas_status"@ {
        Some(seq![with_data(Opcode::GlobalGet, status)])
    } else if name == "poly_wavm_set_gas"@ {
        Some(seq![with_data(Opcode::GlobalSet, status), with_data(Opcode::GlobalSet, gas)])
    } else {
        None
    }
}

/// Each polyglot gas import passes its arguments to an internal function of
/// a module with a polyglot host, and that function works on the host's
/// metering globals as the import names.
pub proof fn lemma_polyglot_gas_imports(name: Seq<char>, host: PolyHostData)
    requires
        polyglot_gas_code(name, host) is Some,
    ensures
        host_impl("env"@, name) matches Some(h) && {
            let call = h.body.last();
            &&& h.body.len() > 0
            &&& call.opcode == Opcode::CallerModuleInternalCall
            &&& call.argument_data < internal_funcs(Some(host)).len()
            &&& internal_funcs(Some(host))[call.argument_data as int].body
                == framed(polyglot_gas_code(name, host)->0)
        },
{
    reveal_strlit("env");
    reveal_strlit("poly_wavm_gas_left");
    reveal_strlit("poly_wavm_gas_status");
    reveal_strlit("poly_wavm_set_gas");
    reveal_strlit("wavm_caller_load8");
    reveal_strlit("wavm_caller_load32");
    reveal_strlit("wavm_caller_store8");
    reveal_strlit("wavm_caller_store32");
    reveal_strlit("wavm_get_globalstate_bytes32");
    reveal_strlit("wavm_set_globalstate_bytes32");
    reveal_strlit("wavm_get_globalstate_u64");
    reveal_strlit("wavm_set_globalstate_u64");
    reveal_strlit("wavm_read_pre_image");
    reveal_strlit("wavm_read_inbox_message");
    reveal_strlit("wavm_read_delayed_inbox_message");
    reveal_strlit("wavm_get_caller_module");
    reveal_strlit("wavm_link_module");
    reveal_strlit("wavm_halt_and_set_finished");
    assert(name[0] == 'p');
    assert("wavm_caller_load8"@[0] == 'w');
    assert("wavm_caller_load32"@[0] == 'w');
    assert("wavm_caller_store8"@[0] == 'w');
    assert("wavm_caller_store32"@[0] == 'w');
    assert("wavm_get_globalstate_bytes32"@[0] == 'w');
    assert("wavm_set_globalstate_bytes32"@[0] == 'w');
    assert("wavm_get_globalstate_u64"@[0] == 'w');
    assert("wavm_set_globalstate_u64"@[0] == 'w');
    assert("wavm_read_pre_image"@[0] == 'w');
    assert("wavm_read_inbox_message"@[0] == 'w');
    assert("wavm_read_delayed_inbox_message"@[0] == 'w');
    assert("wavm_get_caller_module"@[0] == 'w');
    assert("wavm_link_module"@[0] == 'w');
    assert("wavm_halt_and_set_finished"@[0] == 'w');
}

/// A function has the signature and code of a host function, and no locals.
pub open spec fn is_function(f: Function, h: HostImpl) -> bool {
    &&& f.ty.inputs@ == h.inputs
    &&& f.ty.outputs@ == h.outputs
    &&& f.code@ == h.body
    &&& f.local_types@.len() == 0
}

/// A signature is that of a host function.
pub open spec fn is_signature(ty: FunctionType, h: HostImpl) -> bool {
    ty.inputs@ == h.inputs && ty.outputs@ == h.outputs
}

/// `funcs` is `before` followed by the functions `added`, in order.
pub open spec fn functions_appended(funcs: Seq<Function>, before: Seq<Function>, added: Seq<HostImpl>) -> bool {
    &&& funcs.len() == before.len() + added.len()
    &&& funcs.take(before.len() as int) == before
    &&& forall|j: int| 0 <= j < added.len() ==> is_function(#[trigger] funcs[before.len() + j], added[j])
}

/// `types` is `before` followed by the signatures of `added`, in order.
pub open spec fn signatures_appended(types: Seq<FunctionType>, before: Seq<FunctionType>, added: Seq<HostImpl>) -> bool {
    &&& types.len() == before.len() + added.len()
    &&& types.take(before.len() as int) == before
    &&& forall|j: int| 0 <= j < added.len() ==> is_signature(#[trigger] types[before.len() + j], added[j])
}

fn push_internal(
    funcs: &mut Vec<Function>,
    func_types: &mut Vec<FunctionType>,
    inputs: Vec<ArbValueType>,
    outputs: Vec<ArbValueType>,
    code: Vec<Instruction>,
    Ghost(h): Ghost<HostImpl>,
    Ghost(base_funcs): Ghost<Seq<Function>>,
    Ghost(base_types): Ghost<Seq<FunctionType>>,
    Ghost(done): Ghost<Seq<HostImpl>>,
)
    requires
        inputs@ =~= h.inputs,
        outputs@ =~= h.outputs,
        framed(code@) =~= h.body,
        functions_appended(old(funcs)@, base_funcs, done),
        signatures_appended(old(func_types)@, base_types, done),
    ensures
        functions_appended(final(funcs)@, base_funcs, done.push(h)),
        signatures_appended(final(func_types)@, base_types, done.push(h)),
{
    let mut wavm: Vec<Instruction> = vec![Instruction::simple(Opcode::InitFrame)];
    let mut i: usize = 0;
    while i < code.len()
        invariant
            i <= code@.len(),
            wavm@ == seq![simple(Opcode::InitFrame)] + code@.take(i as int),
        decreases code@.len() - i,
    {
        wavm.push(code[i]);
        proof {
            assert(wavm@ =~= seq![simple(Opcode::InitFrame)] + code@.take(i + 1));
        }
        i = i + 1;
    }
    wavm.push(Instruction::simple(Opcode::Return));
    proof {
        assert(code@.take(code@.len() as int) =~= code@);
        assert(wavm@ =~= framed(code@));
    }
    let signature = FunctionType::new(copy_value_types(&inputs), copy_value_types(&outputs));
    func_types.push(signature);
    funcs.push(Function { ty: FunctionType::new(inputs, outputs), code: wavm, local_types: Vec::new() });
    proof {
        let n = base_funcs.len();
        assert(final(funcs)@.take(n as int) =~= old(funcs)@.take(n as int));
        assert(final(func_types)@.take(base_types.len() as int) =~= old(func_types)@.take(base_types.len() as int));
        assert forall|j: int| 0 <= j < done.push(h).len() implies is_function(#[trigger] final(funcs)@[n + j], done.push(h)[j]) by {
            if j < done.len() {
                assert(final(funcs)@[n + j] == old(funcs)@[n + j]);
            }
        }
        assert forall|j: int| 0 <= j < done.push(h).len() implies is_signature(#[trigger] final(func_types)@[base_types.len() + j], done.push(h)[j]) by {
            if j < done.len() {
                assert(final(func_types)@[base_types.len() + j] == old(func_types)@[base_types.len() + j]);
            }
        }
    }
}

fn copy_value_types(types: &Vec<ArbValueType>) -> (res: Vec<ArbValueType>)
    ensures
        res@ == types@,
{
    let mut res: Vec<ArbValueType> = Vec::new();
    let mut i: usize = 0;
    while i < types.len()
        invariant
            i <= types@.len(),
            res@ == types@.take(i as int),
        decreases types@.len() - i,
    {
        res.push(types[i]);
        proof {
            assert(res@ =~= types@.take(i + 1));
        }
        i = i + 1;
    }
    proof {
        assert(types@.take(types@.len() as int) =~= types@);
    }
    res
}

/// Appends the internal functions every module gets to `funcs`, and their
/// signatures to `func_types`: the caller-memory accessors, then, where the
/// module runs under a polyglot host, the gas accessors over its globals.
pub fn add_internal_funcs(funcs: &mut Vec<Function>, func_types: &mut Vec<FunctionType>, poly_host: Option<PolyHostData>)
    ensures
        functions_appended(final(funcs)@, old(funcs)@, internal_funcs(poly_host)),
        signatures_appended(final(func_types)@, old(func_types)@, internal_funcs(poly_host)),
{
    let ghost base_funcs = funcs@;
    let ghost base_types = func_types@;
    let ghost all = internal_funcs(poly_host);
    proof {
        assert(funcs@.take(base_funcs.len() as int) =~= base_funcs);
        assert(func_types@.take(base_types.len() as int) =~= base_types);
        assert(functions_appended(funcs@, base_funcs, Seq::empty()));
        assert(signatures_appended(func_types@, base_types, Seq::empty()));
    }
    push_internal(funcs, func_types, vec![I32], vec![I32],
        vec![Instruction::simple(Opcode::MemoryLoad { ty: I32, bytes: 1, signed: false })],
        Ghost(all[0]), Ghost(base_funcs), Ghost(base_types), Ghost(Seq::empty()));
    push_internal(funcs, func_types, vec![I32], vec![I32],
        vec![Instruction::simple(Opcode::MemoryLoad { ty: I32, bytes: 4, signed: false })],
        Ghost(all[1]), Ghost(base_funcs), Ghost(base_types), Ghost(all.take(1)));
    proof { assert(all.take(1).push(all[1]) =~= all.take(2)); }
    push_internal(funcs, func_types, vec![I32], vec![I32],
        vec![Instruction::simple(Opcode::MemoryStore { ty: I32, bytes: 1 })],
        Ghost(all[2]), Ghost(base_funcs), Ghost(base_types), Ghost(all.take(2)));
    proof { assert(all.take(2).push(all[2]) =~= all.take(3)); }
    push_internal(funcs, func_types, vec![I32], vec![I32],
        vec![Instruction::simple(Opcode::MemoryStore { ty: I32, bytes: 4 })],
        Ghost(all[3]), Ghost(base_funcs), Ghost(base_types), Ghost(all.take(3)));
    proof { assert(all.take(3).push(all[3]) =~= all.take(4)); }
    match poly_host {
        None => {
            proof { assert(all.take(4) =~= all); }
        },
        Some(poly_host) => {
            let (gas, status) = poly_host.globals();
            push_internal(funcs, func_types, vec![], vec![I64],
                vec![Instruction::with_data(Opcode::GlobalGet, gas)],
                Ghost(all[4]), Ghost(base_funcs), Ghost(base_types), Ghost(all.take(4)));
            proof { assert(all.take(4).push(all[4]) =~= all.take(5)); }
            push_internal(funcs, func_types, vec![], vec![I32],
                vec![Instruction::with_data(Opcode::GlobalGet, status)],
                Ghost(all[5]), Ghost(base_funcs), Ghost(base_types), Ghost(all.take(5)));
            proof { assert(all.take(5).push(all[5]) =~= all.take(6)); }
            push_internal(funcs, func_types, vec![I64, I32], vec![],
                vec![Instruction::with_data(Opcode::GlobalSet, status), Instruction::with_data(Opcode::GlobalSet, gas)],
                Ghost(all[6]), Ghost(base_funcs), Ghost(base_types), Ghost(all.take(6)));
            proof { assert(all.take(6).push(all[6]) =~= all); }
        },
    }
}

} // verus!
