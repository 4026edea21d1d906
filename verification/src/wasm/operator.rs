//! The library's model of a WebAssembly operator: one variant per operator of
//! the core instruction set (with the sign-extension and saturating-truncation
//! proposals), and one variant per unsupported proposal family, carrying the
//! refused operator as the decoder writes it in debug form.

use vstd::prelude::*;

verus! {

/// A WebAssembly value type.
#[derive(Clone, Copy, Debug, PartialEq, Eq)]
pub enum ValType {
    I32,
    I64,
    F32,
    F64,
}

/// The type of a structured-control block.
#[derive(Clone, Copy, Debug, PartialEq, Eq)]
pub enum BlockType {
    Empty,
    Value(ValType),
    FuncType(u32),
}

/// The immediate of a memory access.
#[derive(Clone, Copy, Debug, PartialEq, Eq)]
pub struct MemArg {
    pub align: u8,
    pub offset: u64,
    pub memory: u32,
}

/// A proposal beyond the supported instruction set.
#[derive(Clone, Copy, Debug, PartialEq, Eq)]
pub enum Extension {
    ExceptionHandling,
    ReferenceTypes,
    BulkMemory,
    Threads,
    Simd,
}

/// A WebAssembly operator.
#[allow(inconsistent_fields)]
#[derive(Clone, Debug, PartialEq, Eq)]
pub enum Operator {
    Unreachable,
    Nop,
    Block { ty: BlockType },
    Loop { ty: BlockType },
    If { ty: BlockType },
    Else,
    End,
    Br { relative_depth: u32 },
    BrIf { relative_depth: u32 },
    BrTable { targets: Vec<u32>, default: u32 },
    Return,
    Call { function_index: u32 },
    CallIndirect { index: u32, table_index: u32 },
    Drop,
    Select,
    LocalGet { local_index: u32 },
    LocalSet { local_index: u32 },
    LocalTee { local_index: u32 },
    GlobalGet { global_index: u32 },
    GlobalSet { global_index: u32 },
    I32Load { memarg: MemArg },
    I64Load { memarg: MemArg },
    F32Load { memarg: MemArg },
    F64Load { memarg: MemArg },
    I32Load8S { memarg: MemArg },
    I32Load8U { memarg: MemArg },
    I32Load16S { memarg: MemArg },
    I32Load16U { memarg: MemArg },
    I64Load8S { memarg: MemArg },
    I64Load8U { memarg: MemArg },
    I64Load16S { memarg: MemArg },
    I64Load16U { memarg: MemArg },
    I64Load32S { memarg: MemArg },
    I64Load32U { memarg: MemArg },
    I32Store { memarg: MemArg },
    I64Store { memarg: MemArg },
    F32Store { memarg: MemArg },
    F64Store { memarg: MemArg },
    I32Store8 { memarg: MemArg },
    I32Store16 { memarg: MemArg },
    I64Store8 { memarg: MemArg },
    I64Store16 { memarg: MemArg },
    I64Store32 { memarg: MemArg },
    MemorySize { mem: u32 },
    MemoryGrow { mem: u32 },
    I32Const { value: i32 },
    I64Const { value: i64 },
    F32Const { bits: u32 },
    F64Const { bits: u64 },
    I32Eqz,
    I32Eq,
    I32Ne,
    I32LtS,
    I32LtU,
    I32GtS,
    I32GtU,
    I32LeS,
    I32LeU,
    I32GeS,
    I32GeU,
    I64Eqz,
    I64Eq,
    I64Ne,
    I64LtS,
    I64LtU,
    I64GtS,
    I64GtU,
    I64LeS,
    I64LeU,
    I64GeS,
    I64GeU,
    F32Eq,
    F32Ne,
    F32Lt,
    F32Gt,
    F32Le,
    F32Ge,
    F64Eq,
    F64Ne,
    F64Lt,
    F64Gt,
    F64Le,
    F64Ge,
    I32Clz,
    I32Ctz,
    I32Popcnt,
    I32Add,
    I32Sub,
    I32Mul,
    I32DivS,
    I32DivU,
    I32RemS,
    I32RemU,
    I32And,
    I32Or,
    I32Xor,
    I32Shl,
    I32ShrS,
    I32ShrU,
    I32Rotl,
    I32Rotr,
    I64Clz,
    I64Ctz,
    I64Popcnt,
    I64Add,
    I64Sub,
    I64Mul,
    I64DivS,
    I64DivU,
    I64RemS,
    I64RemU,
    I64And,
    I64Or,
    I64Xor,
    I64Shl,
    I64ShrS,
    I64ShrU,
    I64Rotl,
    I64Rotr,
    F32Abs,
    F32Neg,
    F32Ceil,
    F32Floor,
    F32Trunc,
    F32Nearest,
    F32Sqrt,
    F32Add,
    F32Sub,
    F32Mul,
    F32Div,
    F32Min,
    F32Max,
    F32Copysign,
    F64Abs,
    F64Neg,
    F64Ceil,
    F64Floor,
    F64Trunc,
    F64Nearest,
    F64Sqrt,
    F64Add,
    F64Sub,
    F64Mul,
    F64Div,
    F64Min,
    F64Max,
    F64Copysign,
    I32WrapI64,
    I32TruncF32S,
    I32TruncF32U,
    I32TruncF64S,
    I32TruncF64U,
    I64ExtendI32S,
    I64ExtendI32U,
    I64TruncF32S,
    I64TruncF32U,
    I64TruncF64S,
    I64TruncF64U,
    F32ConvertI32S,
    F32ConvertI32U,
    F32ConvertI64S,
    F32ConvertI64U,
    F32DemoteF64,
    F64ConvertI32S,
    F64ConvertI32U,
    F64ConvertI64S,
    F64ConvertI64U,
    F64PromoteF32,
    I32ReinterpretF32,
    I64ReinterpretF64,
    F32ReinterpretI32,
    F64ReinterpretI64,
    I32Extend8S,
    I32Extend16S,
    I64Extend8S,
    I64Extend16S,
    I64Extend32S,
    I32TruncSatF32S,
    I32TruncSatF32U,
    I32TruncSatF64S,
    I32TruncSatF64U,
    I64TruncSatF32S,
    I64TruncSatF32U,
    I64TruncSatF64S,
    I64TruncSatF64U,
    /// An operator of the exception-handling proposal (`try`, `catch`, `throw`, `rethrow`).
    ExceptionOp { text: String },
    /// `select` with an explicit result type (reference-types proposal).
    TypedSelect { ty: ValType, text: String },
    /// An operator of the bulk-memory proposal (`memory.copy`, `table.get`, ...).
    BulkMemoryOp { text: String },
    /// An operator of the threads proposal (atomics, `memory.atomic.wait32`, ...).
    AtomicOp { text: String },
    /// An operator of the SIMD proposal.
    SimdOp { text: String },
}

/// The text an operator of an unsupported proposal carries: the operator as
/// the decoder writes it in debug form, such as `MemoryAtomicWait32 { .. }`.
/// Empty for every other operator.
pub open spec fn unsupported_text(op: Operator) -> Seq<char> {
    match op {
        Operator::ExceptionOp { text } => text@,
        Operator::TypedSelect { text, .. } => text@,
        Operator::BulkMemoryOp { text } => text@,
        Operator::AtomicOp { text } => text@,
        Operator::SimdOp { text } => text@,
        _ => Seq::empty(),
    }
}

/// How an operator changes the height of the value stack, as the depth
/// checker accounts for it.
#[derive(Clone, Copy, Debug, PartialEq, Eq)]
pub enum StackEffect {
    /// Leaves the height unchanged.
    Neutral,
    /// Pushes one value.
    Push,
    /// Pops one value.
    Pop,
    /// Pops two values.
    PopTwo,
    /// Belongs to a proposal the checker refuses.
    Unsupported(Extension),
    /// Not accounted for by the checker.
    Unclassified,
}

/// The stack effect of each operator.
pub open spec fn stack_effect(op: Operator) -> StackEffect {
    match op {
        Operator::Nop | Operator::I32Eqz | Operator::I64Eqz | Operator::I32Clz |
            Operator::I32Ctz | Operator::I32Popcnt | Operator::I64Clz | Operator::I64Ctz |
            Operator::I64Popcnt | Operator::LocalTee { .. } | Operator::MemoryGrow { .. } |
            Operator::I32Load { .. } | Operator::I64Load { .. } |
            Operator::F32Load { .. } | Operator::F64Load { .. } |
            Operator::I32Load8S { .. } | Operator::I32Load8U { .. } |
            Operator::I32Load16S { .. } | Operator::I32Load16U { .. } |
            Operator::I64Load8S { .. } | Operator::I64Load8U { .. } |
            Operator::I64Load16S { .. } | Operator::I64Load16U { .. } |
            Operator::I64Load32S { .. } | Operator::I64Load32U { .. } |
            Operator::I32WrapI64 | Operator::I64ExtendI32S | Operator::I64ExtendI32U |
            Operator::I32Extend8S | Operator::I32Extend16S | Operator::I64Extend8S |
            Operator::I64Extend16S | Operator::I64Extend32S => StackEffect::Neutral,
        Operator::LocalGet { .. } | Operator::GlobalGet { .. } |
            Operator::MemorySize { .. } | Operator::I32Const { .. } |
            Operator::I64Const { .. } | Operator::F32Const { .. } |
            Operator::F64Const { .. } => StackEffect::Push,
        Operator::Drop | Operator::I32Eq | Operator::I32Ne | Operator::I32LtS |
            Operator::I32LtU | Operator::I32GtS | Operator::I32GtU | Operator::I32LeS |
            Operator::I32LeU | Operator::I32GeS | Operator::I32GeU | Operator::I64Eq |
            Operator::I64Ne | Operator::I64LtS | Operator::I64LtU | Operator::I64GtS |
            Operator::I64GtU | Operator::I64LeS | Operator::I64LeU | Operator::I64GeS |
            Operator::I64GeU | Operator::F32Eq | Operator::F32Ne | Operator::F32Lt |
            Operator::F32Gt | Operator::F32Le | Operator::F32Ge | Operator::F64Eq |
            Operator::F64Ne | Operator::F64Lt | Operator::F64Gt | Operator::F64Le |
            Operator::F64Ge | Operator::I32Add | Operator::I32Sub | Operator::I32Mul |
            Operator::I32DivS | Operator::I32DivU | Operator::I32RemS | Operator::I32RemU |
            Operator::I32And | Operator::I32Or | Operator::I32Xor | Operator::I32Shl |
            Operator::I32ShrS | Operator::I32ShrU | Operator::I32Rotl | Operator::I32Rotr |
            Operator::I64Add | Operator::I64Sub | Operator::I64Mul | Operator::I64DivS |
            Operator::I64DivU | Operator::I64RemS | Operator::I64RemU | Operator::I64And |
            Operator::I64Or | Operator::I64Xor | Operator::I64Shl | Operator::I64ShrS |
            Operator::I64ShrU | Operator::I64Rotl | Operator::I64Rotr |
            Operator::LocalSet { .. } | Operator::GlobalSet { .. } => StackEffect::Pop,
        Operator::Select | Operator::I32Store { .. } | Operator::I64Store { .. } |
            Operator::F32Store { .. } | Operator::F64Store { .. } |
            Operator::I32Store8 { .. } | Operator::I32Store16 { .. } |
            Operator::I64Store8 { .. } | Operator::I64Store16 { .. } |
            Operator::I64Store32 { .. } => StackEffect::PopTwo,
        Operator::ExceptionOp { .. } => StackEffect::Unsupported(Extension::ExceptionHandling),
        Operator::TypedSelect { .. } => StackEffect::Unsupported(Extension::ReferenceTypes),
        Operator::BulkMemoryOp { .. } => StackEffect::Unsupported(Extension::BulkMemory),
        Operator::AtomicOp { .. } => StackEffect::Unsupported(Extension::Threads),
        Operator::SimdOp { .. } => StackEffect::Unsupported(Extension::Simd),
        _ => StackEffect::Unclassified,
    }
}

/// How many values an operator takes from the value stack and how many it
/// leaves there, by WebAssembly's typing rules; `None` for the operators whose
/// effect depends on a block, function or table type (control flow, calls)
/// and for those of unsupported proposals.
pub open spec fn wasm_arity(op: Operator) -> Option<(nat, nat)> {
    match op {
        Operator::Nop => Some((0, 0)),
        Operator::LocalGet { .. } | Operator::GlobalGet { .. } | Operator::MemorySize { .. } |
            Operator::I32Const { .. } | Operator::I64Const { .. } | Operator::F32Const { .. } |
            Operator::F64Const { .. } => Some((0, 1)),
        Operator::Drop | Operator::LocalSet { .. } | Operator::GlobalSet { .. } => Some((1, 0)),
        Operator::LocalTee { .. } | Operator::I32Load { .. } | Operator::I64Load { .. } |
            Operator::F32Load { .. } | Operator::F64Load { .. } | Operator::I32Load8S { .. } |
            Operator::I32Load8U { .. } | Operator::I32Load16S { .. } |
            Operator::I32Load16U { .. } | Operator::I64Load8S { .. } | Operator::I64Load8U { .. } |
            Operator::I64Load16S { .. } | Operator::I64Load16U { .. } |
            Operator::I64Load32S { .. } | Operator::I64Load32U { .. } |
            Operator::MemoryGrow { .. } | Operator::I32Eqz | Operator::I64Eqz | Operator::I32Clz |
            Operator::I32Ctz | Operator::I32Popcnt | Operator::I64Clz | Operator::I64Ctz |
            Operator::I64Popcnt | Operator::F32Abs | Operator::F32Neg | Operator::F32Ceil |
            Operator::F32Floor | Operator::F32Trunc | Operator::F32Nearest | Operator::F32Sqrt |
            Operator::F64Abs | Operator::F64Neg | Operator::F64Ceil | Operator::F64Floor |
            Operator::F64Trunc | Operator::F64Nearest | Operator::F64Sqrt | Operator::I32WrapI64 |
            Operator::I32TruncF32S | Operator::I32TruncF32U | Operator::I32TruncF64S |
            Operator::I32TruncF64U | Operator::I64ExtendI32S | Operator::I64ExtendI32U |
            Operator::I64TruncF32S | Operator::I64TruncF32U | Operator::I64TruncF64S |
            Operator::I64TruncF64U | Operator::F32ConvertI32S | Operator::F32ConvertI32U |
            Operator::F32ConvertI64S | Operator::F32ConvertI64U | Operator::F32DemoteF64 |
            Operator::F64ConvertI32S | Operator::F64ConvertI32U | Operator::F64ConvertI64S |
            Operator::F64ConvertI64U | Operator::F64PromoteF32 | Operator::I32ReinterpretF32 |
            Operator::I64ReinterpretF64 | Operator::F32ReinterpretI32 |
            Operator::F64ReinterpretI64 | Operator::I32Extend8S | Operator::I32Extend16S |
            Operator::I64Extend8S | Operator::I64Extend16S | Operator::I64Extend32S |
            Operator::I32TruncSatF32S | Operator::I32TruncSatF32U | Operator::I32TruncSatF64S |
            Operator::I32TruncSatF64U | Operator::I64TruncSatF32S | Operator::I64TruncSatF32U |
            Operator::I64TruncSatF64S | Operator::I64TruncSatF64U => Some((1, 1)),
        Operator::I32Store { .. } | Operator::I64Store { .. } | Operator::F32Store { .. } |
            Operator::F64Store { .. } | Operator::I32Store8 { .. } | Operator::I32Store16 { .. } |
            Operator::I64Store8 { .. } | Operator::I64Store16 { .. } | Operator::I64Store32 { .. } => Some((2, 0)),
        Operator::I32Eq | Operator::I32Ne | Operator::I32LtS | Operator::I32LtU |
            Operator::I32GtS | Operator::I32GtU | Operator::I32LeS | Operator::I32LeU |
            Operator::I32GeS | Operator::I32GeU | Operator::I64Eq | Operator::I64Ne |
            Operator::I64LtS | Operator::I64LtU | Operator::I64GtS | Operator::I64GtU |
            Operator::I64LeS | Operator::I64LeU | Operator::I64GeS | Operator::I64GeU |
            Operator::F32Eq | Operator::F32Ne | Operator::F32Lt | Operator::F32Gt |
            Operator::F32Le | Operator::F32Ge | Operator::F64Eq | Operator::F64Ne |
            Operator::F64Lt | Operator::F64Gt | Operator::F64Le | Operator::F64Ge |
            Operator::I32Add | Operator::I32Sub | Operator::I32Mul | Operator::I32DivS |
            Operator::I32DivU | Operator::I32RemS | Operator::I32RemU | Operator::I32And |
            Operator::I32Or | Operator::I32Xor | Operator::I32Shl | Operator::I32ShrS |
            Operator::I32ShrU | Operator::I32Rotl | Operator::I32Rotr | Operator::I64Add |
            Operator::I64Sub | Operator::I64Mul | Operator::I64DivS | Operator::I64DivU |
            Operator::I64RemS | Operator::I64RemU | Operator::I64And | Operator::I64Or |
            Operator::I64Xor | Operator::I64Shl | Operator::I64ShrS | Operator::I64ShrU |
            Operator::I64Rotl | Operator::I64Rotr | Operator::F32Add | Operator::F32Sub |
            Operator::F32Mul | Operator::F32Div | Operator::F32Min | Operator::F32Max |
            Operator::F32Copysign | Operator::F64Add | Operator::F64Sub | Operator::F64Mul |
            Operator::F64Div | Operator::F64Min | Operator::F64Max | Operator::F64Copysign => Some((2, 1)),
        Operator::Select => Some((3, 1)),
        _ => None,
    }
}

/// Whether an operator ends a basic block: control transfers and block ends.
pub open spec fn ends_basic_block(op: Operator) -> bool {
    match op {
        Operator::End | Operator::Else | Operator::Return | Operator::Loop { .. } |
            Operator::Br { .. } | Operator::BrTable { .. } | Operator::BrIf { .. } |
            Operator::Call { .. } | Operator::CallIndirect { .. } => true,
        _ => false,
    }
}

/// Whether an operator may send control elsewhere than the operator after
/// it: a branch (unconditional, conditional or through a table), a return,
/// or a call.
pub open spec fn transfers_control(op: Operator) -> bool {
    ||| op is Br
    ||| op is BrIf
    ||| op is BrTable
    ||| op is Return
    ||| op is Call
    ||| op is CallIndirect
}

/// Basic blocks end at every control transfer and at the structure that
/// branches target (a loop's start, an arm's `else`, a block's `end`), and
/// never inside straight-line code: an operator with a fixed stack arity
/// never ends a block.
pub proof fn lemma_basic_block_ends(op: Operator)
    ensures
        transfers_control(op) ==> ends_basic_block(op),
        (op is Loop || op is Else || op is End) ==> ends_basic_block(op),
        ends_basic_block(op) ==> transfers_control(op) || op is Loop || op is Else || op is End,
        wasm_arity(op) is Some ==> !ends_basic_block(op),
{
}

impl Operator {
    /// The debug text carried by an operator of an unsupported proposal.
    pub fn unsupported_text(&self) -> (res: String)
        ensures
            res@ == unsupported_text(*self),
    {
        match self {
            Operator::ExceptionOp { text } => text.clone(),
            Operator::TypedSelect { text, .. } => text.clone(),
            Operator::BulkMemoryOp { text } => text.clone(),
            Operator::AtomicOp { text } => text.clone(),
            Operator::SimdOp { text } => text.clone(),
            _ => String::new(),
        }
    }

    /// The stack effect of this operator.
    pub fn stack_effect(&self) -> (e: StackEffect)
        ensures
            e == stack_effect(*self),
    {
        let op = self;
        match op {
            Operator::Nop | Operator::I32Eqz | Operator::I64Eqz | Operator::I32Clz |
                Operator::I32Ctz | Operator::I32Popcnt | Operator::I64Clz | Operator::I64Ctz |
                Operator::I64Popcnt | Operator::LocalTee { .. } | Operator::MemoryGrow { .. } |
                Operator::I32Load { .. } | Operator::I64Load { .. } |
                Operator::F32Load { .. } | Operator::F64Load { .. } |
                Operator::I32Load8S { .. } | Operator::I32Load8U { .. } |
                Operator::I32Load16S { .. } | Operator::I32Load16U { .. } |
                Operator::I64Load8S { .. } | Operator::I64Load8U { .. } |
                Operator::I64Load16S { .. } | Operator::I64Load16U { .. } |
                Operator::I64Load32S { .. } | Operator::I64Load32U { .. } |
                Operator::I32WrapI64 | Operator::I64ExtendI32S | Operator::I64ExtendI32U |
                Operator::I32Extend8S | Operator::I32Extend16S | Operator::I64Extend8S |
                Operator::I64Extend16S | Operator::I64Extend32S => StackEffect::Neutral,
            Operator::LocalGet { .. } | Operator::GlobalGet { .. } |
                Operator::MemorySize { .. } | Operator::I32Const { .. } |
                Operator::I64Const { .. } | Operator::F32Const { .. } |
                Operator::F64Const { .. } => StackEffect::Push,
            Operator::Drop | Operator::I32Eq | Operator::I32Ne | Operator::I32LtS |
                Operator::I32LtU | Operator::I32GtS | Operator::I32GtU | Operator::I32LeS |
                Operator::I32LeU | Operator::I32GeS | Operator::I32GeU | Operator::I64Eq |
                Operator::I64Ne | Operator::I64LtS | Operator::I64LtU | Operator::I64GtS |
                Operator::I64GtU | Operator::I64LeS | Operator::I64LeU | Operator::I64GeS |
                Operator::I64GeU | Operator::F32Eq | Operator::F32Ne | Operator::F32Lt |
                Operator::F32Gt | Operator::F32Le | Operator::F32Ge | Operator::F64Eq |
                Operator::F64Ne | Operator::F64Lt | Operator::F64Gt | Operator::F64Le |
                Operator::F64Ge | Operator::I32Add | Operator::I32Sub | Operator::I32Mul |
                Operator::I32DivS | Operator::I32DivU | Operator::I32RemS | Operator::I32RemU |
                Operator::I32And | Operator::I32Or | Operator::I32Xor | Operator::I32Shl |
                Operator::I32ShrS | Operator::I32ShrU | Operator::I32Rotl | Operator::I32Rotr |
                Operator::I64Add | Operator::I64Sub | Operator::I64Mul | Operator::I64DivS |
                Operator::I64DivU | Operator::I64RemS | Operator::I64RemU | Operator::I64And |
                Operator::I64Or | Operator::I64Xor | Operator::I64Shl | Operator::I64ShrS |
                Operator::I64ShrU | Operator::I64Rotl | Operator::I64Rotr |
                Operator::LocalSet { .. } | Operator::GlobalSet { .. } => StackEffect::Pop,
            Operator::Select | Operator::I32Store { .. } | Operator::I64Store { .. } |
                Operator::F32Store { .. } | Operator::F64Store { .. } |
                Operator::I32Store8 { .. } | Operator::I32Store16 { .. } |
                Operator::I64Store8 { .. } | Operator::I64Store16 { .. } |
                Operator::I64Store32 { .. } => StackEffect::PopTwo,
            Operator::ExceptionOp { .. } => StackEffect::Unsupported(Extension::ExceptionHandling),
            Operator::TypedSelect { .. } => StackEffect::Unsupported(Extension::ReferenceTypes),
            Operator::BulkMemoryOp { .. } => StackEffect::Unsupported(Extension::BulkMemory),
            Operator::AtomicOp { .. } => StackEffect::Unsupported(Extension::Threads),
            Operator::SimdOp { .. } => StackEffect::Unsupported(Extension::Simd),
            _ => StackEffect::Unclassified,
        }
    }

    /// Whether this operator ends a basic block.
    pub fn ends_basic_block(&self) -> (b: bool)
        ensures
            b == ends_basic_block(*self),
    {
        match self {
            Operator::End | Operator::Else | Operator::Return | Operator::Loop { .. } |
                Operator::Br { .. } | Operator::BrTable { .. } | Operator::BrIf { .. } |
                Operator::Call { .. } | Operator::CallIndirect { .. } => true,
            _ => false,
        }
    }

    /// Whether this operator is `end`.
    pub fn is_end(&self) -> (b: bool)
        ensures
            b == (*self is End),
    {
        match self {
            Operator::End => true,
            _ => false,
        }
    }

    /// Whether this operator is `return`.
    pub fn is_return(&self) -> (b: bool)
        ensures
            b == (*self is Return),
    {
        match self {
            Operator::Return => true,
            _ => false,
        }
    }
}

} // verus!

verus! {

/// The number of operator codes.
pub const OPERATOR_COUNT: usize = 190;

/// The code of an operator: its position in the list of operators (each
/// unsupported proposal counting as one).
pub open spec fn op_code(op: Operator) -> usize {
    match op {
        Operator::Unreachable => 0,
        Operator::Nop => 1,
        Operator::Block { .. } => 2,
        Operator::Loop { .. } => 3,
        Operator::If { .. } => 4,
        Operator::Else => 5,
        Operator::End => 6,
        Operator::Br { .. } => 7,
        Operator::BrIf { .. } => 8,
        Operator::BrTable { .. } => 9,
        Operator::Return => 10,
        Operator::Call { .. } => 11,
        Operator::CallIndirect { .. } => 12,
        Operator::Drop => 13,
        Operator::Select => 14,
        Operator::LocalGet { .. } => 15,
        Operator::LocalSet { .. } => 16,
        Operator::LocalTee { .. } => 17,
        Operator::GlobalGet { .. } => 18,
        Operator::GlobalSet { .. } => 19,
        Operator::I32Load { .. } => 20,
        Operator::I64Load { .. } => 21,
        Operator::F32Load { .. } => 22,
        Operator::F64Load { .. } => 23,
        Operator::I32Load8S { .. } => 24,
        Operator::I32Load8U { .. } => 25,
        Operator::I32Load16S { .. } => 26,
        Operator::I32Load16U { .. } => 27,
        Operator::I64Load8S { .. } => 28,
        Operator::I64Load8U { .. } => 29,
        Operator::I64Load16S { .. } => 30,
        Operator::I64Load16U { .. } => 31,
        Operator::I64Load32S { .. } => 32,
        Operator::I64Load32U { .. } => 33,
        Operator::I32Store { .. } => 34,
        Operator::I64Store { .. } => 35,
        Operator::F32Store { .. } => 36,
        Operator::F64Store { .. } => 37,
        Operator::I32Store8 { .. } => 38,
        Operator::I32Store16 { .. } => 39,
        Operator::I64Store8 { .. } => 40,
        Operator::I64Store16 { .. } => 41,
        Operator::I64Store32 { .. } => 42,
        Operator::MemorySize { .. } => 43,
        Operator::MemoryGrow { .. } => 44,
        Operator::I32Const { .. } => 45,
        Operator::I64Const { .. } => 46,
        Operator::F32Const { .. } => 47,
        Operator::F64Const { .. } => 48,
        Operator::I32Eqz => 49,
        Operator::I32Eq => 50,
        Operator::I32Ne => 51,
        Operator::I32LtS => 52,
        Operator::I32LtU => 53,
        Operator::I32GtS => 54,
        Operator::I32GtU => 55,
        Operator::I32LeS => 56,
        Operator::I32LeU => 57,
        Operator::I32GeS => 58,
        Operator::I32GeU => 59,
        Operator::I64Eqz => 60,
        Operator::I64Eq => 61,
        Operator::I64Ne => 62,
        Operator::I64LtS => 63,
        Operator::I64LtU => 64,
        Operator::I64GtS => 65,
        Operator::I64GtU => 66,
        Operator::I64LeS => 67,
        Operator::I64LeU => 68,
        Operator::I64GeS => 69,
        Operator::I64GeU => 70,
        Operator::F32Eq => 71,
        Operator::F32Ne => 72,
        Operator::F32Lt => 73,
        Operator::F32Gt => 74,
        Operator::F32Le => 75,
        Operator::F32Ge => 76,
        Operator::F64Eq => 77,
        Operator::F64Ne => 78,
        Operator::F64Lt => 79,
        Operator::F64Gt => 80,
        Operator::F64Le => 81,
        Operator::F64Ge => 82,
        Operator::I32Clz => 83,
        Operator::I32Ctz => 84,
        Operator::I32Popcnt => 85,
        Operator::I32Add => 86,
        Operator::I32Sub => 87,
        Operator::I32Mul => 88,
        Operator::I32DivS => 89,
        Operator::I32DivU => 90,
        Operator::I32RemS => 91,
        Operator::I32RemU => 92,
        Operator::I32And => 93,
        Operator::I32Or => 94,
        Operator::I32Xor => 95,
        Operator::I32Shl => 96,
        Operator::I32ShrS => 97,
        Operator::I32ShrU => 98,
        Operator::I32Rotl => 99,
        Operator::I32Rotr => 100,
        Operator::I64Clz => 101,
        Operator::I64Ctz => 102,
        Operator::I64Popcnt => 103,
        Operator::I64Add => 104,
        Operator::I64Sub => 105,
        Operator::I64Mul => 106,
        Operator::I64DivS => 107,
        Operator::I64DivU => 108,
        Operator::I64RemS => 109,
        Operator::I64RemU => 110,
        Operator::I64And => 111,
        Operator::I64Or => 112,
        Operator::I64Xor => 113,
        Operator::I64Shl => 114,
        Operator::I64ShrS => 115,
        Operator::I64ShrU => 116,
        Operator::I64Rotl => 117,
        Operator::I64Rotr => 118,
        Operator::F32Abs => 119,
        Operator::F32Neg => 120,
        Operator::F32Ceil => 121,
        Operator::F32Floor => 122,
        Operator::F32Trunc => 123,
        Operator::F32Nearest => 124,
        Operator::F32Sqrt => 125,
        Operator::F32Add => 126,
        Operator::F32Sub => 127,
        Operator::F32Mul => 128,
        Operator::F32Div => 129,
        Operator::F32Min => 130,
        Operator::F32Max => 131,
        Operator::F32Copysign => 132,
        Operator::F64Abs => 133,
        Operator::F64Neg => 134,
        Operator::F64Ceil => 135,
        Operator::F64Floor => 136,
        Operator::F64Trunc => 137,
        Operator::F64Nearest => 138,
        Operator::F64Sqrt => 139,
        Operator::F64Add => 140,
        Operator::F64Sub => 141,
        Operator::F64Mul => 142,
        Operator::F64Div => 143,
        Operator::F64Min => 144,
        Operator::F64Max => 145,
        Operator::F64Copysign => 146,
        Operator::I32WrapI64 => 147,
        Operator::I32TruncF32S => 148,
        Operator::I32TruncF32U => 149,
        Operator::I32TruncF64S => 150,
        Operator::I32TruncF64U => 151,
        Operator::I64ExtendI32S => 152,
        Operator::I64ExtendI32U => 153,
        Operator::I64TruncF32S => 154,
        Operator::I64TruncF32U => 155,
        Operator::I64TruncF64S => 156,
        Operator::I64TruncF64U => 157,
        Operator::F32ConvertI32S => 158,
        Operator::F32ConvertI32U => 159,
        Operator::F32ConvertI64S => 160,
        Operator::F32ConvertI64U => 161,
        Operator::F32DemoteF64 => 162,
        Operator::F64ConvertI32S => 163,
        Operator::F64ConvertI32U => 164,
        Operator::F64ConvertI64S => 165,
        Operator::F64ConvertI64U => 166,
        Operator::F64PromoteF32 => 167,
        Operator::I32ReinterpretF32 => 168,
        Operator::I64ReinterpretF64 => 169,
        Operator::F32ReinterpretI32 => 170,
        Operator::F64ReinterpretI64 => 171,
        Operator::I32Extend8S => 172,
        Operator::I32Extend16S => 173,
        Operator::I64Extend8S => 174,
        Operator::I64Extend16S => 175,
        Operator::I64Extend32S => 176,
        Operator::I32TruncSatF32S => 177,
        Operator::I32TruncSatF32U => 178,
        Operator::I32TruncSatF64S => 179,
        Operator::I32TruncSatF64U => 180,
        Operator::I64TruncSatF32S => 181,
        Operator::I64TruncSatF32U => 182,
        Operator::I64TruncSatF64S => 183,
        Operator::I64TruncSatF64U => 184,
        Operator::ExceptionOp { .. } => 185,
        Operator::TypedSelect { .. } => 186,
        Operator::BulkMemoryOp { .. } => 187,
        Operator::AtomicOp { .. } => 188,
        Operator::SimdOp { .. } => 189,
    }
}

/// Whether two operators are the same instruction, whatever their immediates.
pub open spec fn same_kind(a: Operator, b: Operator) -> bool {
    match a {
        Operator::Unreachable => b is Unreachable,
        Operator::Nop => b is Nop,
        Operator::Block { .. } => b is Block,
        Operator::Loop { .. } => b is Loop,
        Operator::If { .. } => b is If,
        Operator::Else => b is Else,
        Operator::End => b is End,
        Operator::Br { .. } => b is Br,
        Operator::BrIf { .. } => b is BrIf,
        Operator::BrTable { .. } => b is BrTable,
        Operator::Return => b is Return,
        Operator::Call { .. } => b is Call,
        Operator::CallIndirect { .. } => b is CallIndirect,
        Operator::Drop => b is Drop,
        Operator::Select => b is Select,
        Operator::LocalGet { .. } => b is LocalGet,
        Operator::LocalSet { .. } => b is LocalSet,
        Operator::LocalTee { .. } => b is LocalTee,
        Operator::GlobalGet { .. } => b is GlobalGet,
        Operator::GlobalSet { .. } => b is GlobalSet,
        Operator::I32Load { .. } => b is I32Load,
        Operator::I64Load { .. } => b is I64Load,
        Operator::F32Load { .. } => b is F32Load,
        Operator::F64Load { .. } => b is F64Load,
        Operator::I32Load8S { .. } => b is I32Load8S,
        Operator::I32Load8U { .. } => b is I32Load8U,
        Operator::I32Load16S { .. } => b is I32Load16S,
        Operator::I32Load16U { .. } => b is I32Load16U,
        Operator::I64Load8S { .. } => b is I64Load8S,
        Operator::I64Load8U { .. } => b is I64Load8U,
        Operator::I64Load16S { .. } => b is I64Load16S,
        Operator::I64Load16U { .. } => b is I64Load16U,
        Operator::I64Load32S { .. } => b is I64Load32S,
        Operator::I64Load32U { .. } => b is I64Load32U,
        Operator::I32Store { .. } => b is I32Store,
        Operator::I64Store { .. } => b is I64Store,
        Operator::F32Store { .. } => b is F32Store,
        Operator::F64Store { .. } => b is F64Store,
        Operator::I32Store8 { .. } => b is I32Store8,
        Operator::I32Store16 { .. } => b is I32Store16,
        Operator::I64Store8 { .. } => b is I64Store8,
        Operator::I64Store16 { .. } => b is I64Store16,
        Operator::I64Store32 { .. } => b is I64Store32,
        Operator::MemorySize { .. } => b is MemorySize,
        Operator::MemoryGrow { .. } => b is MemoryGrow,
        Operator::I32Const { .. } => b is I32Const,
        Operator::I64Const { .. } => b is I64Const,
        Operator::F32Const { .. } => b is F32Const,
        Operator::F64Const { .. } => b is F64Const,
        Operator::I32Eqz => b is I32Eqz,
        Operator::I32Eq => b is I32Eq,
        Operator::I32Ne => b is I32Ne,
        Operator::I32LtS => b is I32LtS,
        Operator::I32LtU => b is I32LtU,
        Operator::I32GtS => b is I32GtS,
        Operator::I32GtU => b is I32GtU,
        Operator::I32LeS => b is I32LeS,
        Operator::I32LeU => b is I32LeU,
        Operator::I32GeS => b is I32GeS,
        Operator::I32GeU => b is I32GeU,
        Operator::I64Eqz => b is I64Eqz,
        Operator::I64Eq => b is I64Eq,
        Operator::I64Ne => b is I64Ne,
        Operator::I64LtS => b is I64LtS,
        Operator::I64LtU => b is I64LtU,
        Operator::I64GtS => b is I64GtS,
        Operator::I64GtU => b is I64GtU,
        Operator::I64LeS => b is I64LeS,
        Operator::I64LeU => b is I64LeU,
        Operator::I64GeS => b is I64GeS,
        Operator::I64GeU => b is I64GeU,
        Operator::F32Eq => b is F32Eq,
        Operator::F32Ne => b is F32Ne,
        Operator::F32Lt => b is F32Lt,
        Operator::F32Gt => b is F32Gt,
        Operator::F32Le => b is F32Le,
        Operator::F32Ge => b is F32Ge,
        Operator::F64Eq => b is F64Eq,
        Operator::F64Ne => b is F64Ne,
        Operator::F64Lt => b is F64Lt,
        Operator::F64Gt => b is F64Gt,
        Operator::F64Le => b is F64Le,
        Operator::F64Ge => b is F64Ge,
        Operator::I32Clz => b is I32Clz,
        Operator::I32Ctz => b is I32Ctz,
        Operator::I32Popcnt => b is I32Popcnt,
        Operator::I32Add => b is I32Add,
        Operator::I32Sub => b is I32Sub,
        Operator::I32Mul => b is I32Mul,
        Operator::I32DivS => b is I32DivS,
        Operator::I32DivU => b is I32DivU,
        Operator::I32RemS => b is I32RemS,
        Operator::I32RemU => b is I32RemU,
        Operator::I32And => b is I32And,
        Operator::I32Or => b is I32Or,
        Operator::I32Xor => b is I32Xor,
        Operator::I32Shl => b is I32Shl,
        Operator::I32ShrS => b is I32ShrS,
        Operator::I32ShrU => b is I32ShrU,
        Operator::I32Rotl => b is I32Rotl,
        Operator::I32Rotr => b is I32Rotr,
        Operator::I64Clz => b is I64Clz,
        Operator::I64Ctz => b is I64Ctz,
        Operator::I64Popcnt => b is I64Popcnt,
        Operator::I64Add => b is I64Add,
        Operator::I64Sub => b is I64Sub,
        Operator::I64Mul => b is I64Mul,
        Operator::I64DivS => b is I64DivS,
        Operator::I64DivU => b is I64DivU,
        Operator::I64RemS => b is I64RemS,
        Operator::I64RemU => b is I64RemU,
        Operator::I64And => b is I64And,
        Operator::I64Or => b is I64Or,
        Operator::I64Xor => b is I64Xor,
        Operator::I64Shl => b is I64Shl,
        Operator::I64ShrS => b is I64ShrS,
        Operator::I64ShrU => b is I64ShrU,
        Operator::I64Rotl => b is I64Rotl,
        Operator::I64Rotr => b is I64Rotr,
        Operator::F32Abs => b is F32Abs,
        Operator::F32Neg => b is F32Neg,
        Operator::F32Ceil => b is F32Ceil,
        Operator::F32Floor => b is F32Floor,
        Operator::F32Trunc => b is F32Trunc,
        Operator::F32Nearest => b is F32Nearest,
        Operator::F32Sqrt => b is F32Sqrt,
        Operator::F32Add => b is F32Add,
        Operator::F32Sub => b is F32Sub,
        Operator::F32Mul => b is F32Mul,
        Operator::F32Div => b is F32Div,
        Operator::F32Min => b is F32Min,
        Operator::F32Max => b is F32Max,
        Operator::F32Copysign => b is F32Copysign,
        Operator::F64Abs => b is F64Abs,
        Operator::F64Neg => b is F64Neg,
        Operator::F64Ceil => b is F64Ceil,
        Operator::F64Floor => b is F64Floor,
        Operator::F64Trunc => b is F64Trunc,
        Operator::F64Nearest => b is F64Nearest,
        Operator::F64Sqrt => b is F64Sqrt,
        Operator::F64Add => b is F64Add,
        Operator::F64Sub => b is F64Sub,
        Operator::F64Mul => b is F64Mul,
        Operator::F64Div => b is F64Div,
        Operator::F64Min => b is F64Min,
        Operator::F64Max => b is F64Max,
        Operator::F64Copysign => b is F64Copysign,
        Operator::I32WrapI64 => b is I32WrapI64,
        Operator::I32TruncF32S => b is I32TruncF32S,
        Operator::I32TruncF32U => b is I32TruncF32U,
        Operator::I32TruncF64S => b is I32TruncF64S,
        Operator::I32TruncF64U => b is I32TruncF64U,
        Operator::I64ExtendI32S => b is I64ExtendI32S,
        Operator::I64ExtendI32U => b is I64ExtendI32U,
        Operator::I64TruncF32S => b is I64TruncF32S,
        Operator::I64TruncF32U => b is I64TruncF32U,
        Operator::I64TruncF64S => b is I64TruncF64S,
        Operator::I64TruncF64U => b is I64TruncF64U,
        Operator::F32ConvertI32S => b is F32ConvertI32S,
        Operator::F32ConvertI32U => b is F32ConvertI32U,
        Operator::F32ConvertI64S => b is F32ConvertI64S,
        Operator::F32ConvertI64U => b is F32ConvertI64U,
        Operator::F32DemoteF64 => b is F32DemoteF64,
        Operator::F64ConvertI32S => b is F64ConvertI32S,
        Operator::F64ConvertI32U => b is F64ConvertI32U,
        Operator::F64ConvertI64S => b is F64ConvertI64S,
        Operator::F64ConvertI64U => b is F64ConvertI64U,
        Operator::F64PromoteF32 => b is F64PromoteF32,
        Operator::I32ReinterpretF32 => b is I32ReinterpretF32,
        Operator::I64ReinterpretF64 => b is I64ReinterpretF64,
        Operator::F32ReinterpretI32 => b is F32ReinterpretI32,
        Operator::F64ReinterpretI64 => b is F64ReinterpretI64,
        Operator::I32Extend8S => b is I32Extend8S,
        Operator::I32Extend16S => b is I32Extend16S,
        Operator::I64Extend8S => b is I64Extend8S,
        Operator::I64Extend16S => b is I64Extend16S,
        Operator::I64Extend32S => b is I64Extend32S,
        Operator::I32TruncSatF32S => b is I32TruncSatF32S,
        Operator::I32TruncSatF32U => b is I32TruncSatF32U,
        Operator::I32TruncSatF64S => b is I32TruncSatF64S,
        Operator::I32TruncSatF64U => b is I32TruncSatF64U,
        Operator::I64TruncSatF32S => b is I64TruncSatF32S,
        Operator::I64TruncSatF32U => b is I64TruncSatF32U,
        Operator::I64TruncSatF64S => b is I64TruncSatF64S,
        Operator::I64TruncSatF64U => b is I64TruncSatF64U,
        Operator::ExceptionOp { .. } => b is ExceptionOp,
        Operator::TypedSelect { .. } => b is TypedSelect,
        Operator::BulkMemoryOp { .. } => b is BulkMemoryOp,
        Operator::AtomicOp { .. } => b is AtomicOp,
        Operator::SimdOp { .. } => b is SimdOp,
    }
}

/// Operator codes tell instructions apart: two operators with the same code
/// are the same instruction, so each code counts exactly one kind of operator.
pub proof fn lemma_op_code_injective(a: Operator, b: Operator)
    ensures
        op_code(a) == op_code(b) ==> same_kind(a, b),
{
}

impl Operator {
    /// The operator's code.
    pub fn code(&self) -> (res: usize)
        ensures
            res == op_code(*self),
            res < OPERATOR_COUNT,
    {
        match self {
            Operator::Unreachable => 0,
            Operator::Nop => 1,
            Operator::Block { .. } => 2,
            Operator::Loop { .. } => 3,
            Operator::If { .. } => 4,
            Operator::Else => 5,
            Operator::End => 6,
            Operator::Br { .. } => 7,
            Operator::BrIf { .. } => 8,
            Operator::BrTable { .. } => 9,
            Operator::Return => 10,
            Operator::Call { .. } => 11,
            Operator::CallIndirect { .. } => 12,
            Operator::Drop => 13,
            Operator::Select => 14,
            Operator::LocalGet { .. } => 15,
            Operator::LocalSet { .. } => 16,
            Operator::LocalTee { .. } => 17,
            Operator::GlobalGet { .. } => 18,
            Operator::GlobalSet { .. } => 19,
            Operator::I32Load { .. } => 20,
            Operator::I64Load { .. } => 21,
            Operator::F32Load { .. } => 22,
            Operator::F64Load { .. } => 23,
            Operator::I32Load8S { .. } => 24,
            Operator::I32Load8U { .. } => 25,
            Operator::I32Load16S { .. } => 26,
            Operator::I32Load16U { .. } => 27,
            Operator::I64Load8S { .. } => 28,
            Operator::I64Load8U { .. } => 29,
            Operator::I64Load16S { .. } => 30,
            Operator::I64Load16U { .. } => 31,
            Operator::I64Load32S { .. } => 32,
            Operator::I64Load32U { .. } => 33,
            Operator::I32Store { .. } => 34,
            Operator::I64Store { .. } => 35,
            Operator::F32Store { .. } => 36,
            Operator::F64Store { .. } => 37,
            Operator::I32Store8 { .. } => 38,
            Operator::I32Store16 { .. } => 39,
            Operator::I64Store8 { .. } => 40,
            Operator::I64Store16 { .. } => 41,
            Operator::I64Store32 { .. } => 42,
            Operator::MemorySize { .. } => 43,
            Operator::MemoryGrow { .. } => 44,
            Operator::I32Const { .. } => 45,
            Operator::I64Const { .. } => 46,
            Operator::F32Const { .. } => 47,
            Operator::F64Const { .. } => 48,
            Operator::I32Eqz => 49,
            Operator::I32Eq => 50,
            Operator::I32Ne => 51,
            Operator::I32LtS => 52,
            Operator::I32LtU => 53,
            Operator::I32GtS => 54,
            Operator::I32GtU => 55,
            Operator::I32LeS => 56,
            Operator::I32LeU => 57,
            Operator::I32GeS => 58,
            Operator::I32GeU => 59,
            Operator::I64Eqz => 60,
            Operator::I64Eq => 61,
            Operator::I64Ne => 62,
            Operator::I64LtS => 63,
            Operator::I64LtU => 64,
            Operator::I64GtS => 65,
            Operator::I64GtU => 66,
            Operator::I64LeS => 67,
            Operator::I64LeU => 68,
            Operator::I64GeS => 69,
            Operator::I64GeU => 70,
            Operator::F32Eq => 71,
            Operator::F32Ne => 72,
            Operator::F32Lt => 73,
            Operator::F32Gt => 74,
            Operator::F32Le => 75,
            Operator::F32Ge => 76,
            Operator::F64Eq => 77,
            Operator::F64Ne => 78,
            Operator::F64Lt => 79,
            Operator::F64Gt => 80,
            Operator::F64Le => 81,
            Operator::F64Ge => 82,
            Operator::I32Clz => 83,
            Operator::I32Ctz => 84,
            Operator::I32Popcnt => 85,
            Operator::I32Add => 86,
            Operator::I32Sub => 87,
            Operator::I32Mul => 88,
            Operator::I32DivS => 89,
            Operator::I32DivU => 90,
            Operator::I32RemS => 91,
            Operator::I32RemU => 92,
            Operator::I32And => 93,
            Operator::I32Or => 94,
            Operator::I32Xor => 95,
            Operator::I32Shl => 96,
            Operator::I32ShrS => 97,
            Operator::I32ShrU => 98,
            Operator::I32Rotl => 99,
            Operator::I32Rotr => 100,
            Operator::I64Clz => 101,
            Operator::I64Ctz => 102,
            Operator::I64Popcnt => 103,
            Operator::I64Add => 104,
            Operator::I64Sub => 105,
            Operator::I64Mul => 106,
            Operator::I64DivS => 107,
            Operator::I64DivU => 108,
            Operator::I64RemS => 109,
            Operator::I64RemU => 110,
            Operator::I64And => 111,
            Operator::I64Or => 112,
            Operator::I64Xor => 113,
            Operator::I64Shl => 114,
            Operator::I64ShrS => 115,
            Operator::I64ShrU => 116,
            Operator::I64Rotl => 117,
            Operator::I64Rotr => 118,
            Operator::F32Abs => 119,
            Operator::F32Neg => 120,
            Operator::F32Ceil => 121,
            Operator::F32Floor => 122,
            Operator::F32Trunc => 123,
            Operator::F32Nearest => 124,
            Operator::F32Sqrt => 125,
            Operator::F32Add => 126,
            Operator::F32Sub => 127,
            Operator::F32Mul => 128,
            Operator::F32Div => 129,
            Operator::F32Min => 130,
            Operator::F32Max => 131,
            Operator::F32Copysign => 132,
            Operator::F64Abs => 133,
            Operator::F64Neg => 134,
            Operator::F64Ceil => 135,
            Operator::F64Floor => 136,
            Operator::F64Trunc => 137,
            Operator::F64Nearest => 138,
            Operator::F64Sqrt => 139,
            Operator::F64Add => 140,
            Operator::F64Sub => 141,
            Operator::F64Mul => 142,
            Operator::F64Div => 143,
            Operator::F64Min => 144,
            Operator::F64Max => 145,
            Operator::F64Copysign => 146,
            Operator::I32WrapI64 => 147,
            Operator::I32TruncF32S => 148,
            Operator::I32TruncF32U => 149,
            Operator::I32TruncF64S => 150,
            Operator::I32TruncF64U => 151,
            Operator::I64ExtendI32S => 152,
            Operator::I64ExtendI32U => 153,
            Operator::I64TruncF32S => 154,
            Operator::I64TruncF32U => 155,
            Operator::I64TruncF64S => 156,
            Operator::I64TruncF64U => 157,
            Operator::F32ConvertI32S => 158,
            Operator::F32ConvertI32U => 159,
            Operator::F32ConvertI64S => 160,
            Operator::F32ConvertI64U => 161,
            Operator::F32DemoteF64 => 162,
            Operator::F64ConvertI32S => 163,
            Operator::F64ConvertI32U => 164,
            Operator::F64ConvertI64S => 165,
            Operator::F64ConvertI64U => 166,
            Operator::F64PromoteF32 => 167,
            Operator::I32ReinterpretF32 => 168,
            Operator::I64ReinterpretF64 => 169,
            Operator::F32ReinterpretI32 => 170,
            Operator::F64ReinterpretI64 => 171,
            Operator::I32Extend8S => 172,
            Operator::I32Extend16S => 173,
            Operator::I64Extend8S => 174,
            Operator::I64Extend16S => 175,
            Operator::I64Extend32S => 176,
            Operator::I32TruncSatF32S => 177,
            Operator::I32TruncSatF32U => 178,
            Operator::I32TruncSatF64S => 179,
            Operator::I32TruncSatF64U => 180,
            Operator::I64TruncSatF32S => 181,
            Operator::I64TruncSatF32U => 182,
            Operator::I64TruncSatF64S => 183,
            Operator::I64TruncSatF64U => 184,
            Operator::ExceptionOp { .. } => 185,
            Operator::TypedSelect { .. } => 186,
            Operator::BulkMemoryOp { .. } => 187,
            Operator::AtomicOp { .. } => 188,
            Operator::SimdOp { .. } => 189,
        }
    }
}

} // verus!
