//! Stack-depth checking: a function's prologue charges one word of stack space
//! against a global budget, and every exit gives it back.

use vstd::prelude::*;
use crate::wasm::operator::{
    Operator, StackEffect, Extension, BlockType, ValType, stack_effect, unsupported_text, wasm_arity,
};
use crate::wasm::module::{ModuleInfo, GlobalInit, ExportIndex, TransformError};
use crate::polyglot::util::{add_global, polyglot_name};

verus! {

/// The value-stack height after an operator with the given effect.
pub open spec fn apply_effect(stack: nat, e: StackEffect) -> nat {
    match e {
        StackEffect::Push => stack + 1,
        StackEffect::Pop => if stack >= 1 { (stack - 1) as nat } else { 0 },
        StackEffect::PopTwo => if stack >= 2 { (stack - 2) as nat } else { 0 },
        _ => stack,
    }
}

/// The stack height the checker computes for a straight-line sequence of
/// operators, starting from an empty stack; pops below zero saturate.
pub open spec fn stack_height(ops: Seq<Operator>) -> nat
    decreases ops.len(),
{
    if ops.len() == 0 {
        0
    } else {
        apply_effect(stack_height(ops.drop_last()), stack_effect(ops.last()))
    }
}

/// The change of stack height a stack effect stands for.
pub open spec fn effect_delta(e: StackEffect) -> int {
    match e {
        StackEffect::Push => 1,
        StackEffect::Pop => -1,
        StackEffect::PopTwo => -2,
        _ => 0,
    }
}

/// The checker accounts every operator it classifies by the operator's net
/// change of the value stack under WebAssembly's typing rules: the values it
/// leaves less the values it takes.
pub proof fn lemma_stack_effect_is_net_change(op: Operator)
    requires
        !(stack_effect(op) is Unsupported),
        !(stack_effect(op) is Unclassified),
    ensures
        wasm_arity(op) matches Some((taken, left)) && effect_delta(stack_effect(op)) == left - taken,
{
}

/// Every operator that takes nothing and leaves one value (a constant, or a
/// read of a local, a global or the memory size) raises the height by one.
pub proof fn lemma_value_producers_push(op: Operator)
    requires
        wasm_arity(op) == Some((0nat, 1nat)),
    ensures
        stack_effect(op) == StackEffect::Push,
        forall|ops: Seq<Operator>| #[trigger] stack_height(ops.push(op)) == stack_height(ops) + 1,
{
    assert forall|ops: Seq<Operator>| #[trigger] stack_height(ops.push(op)) == stack_height(ops) + 1 by {
        assert(ops.push(op).drop_last() =~= ops);
    }
}

/// A body made only of operators that each leave one value reaches the height
/// of its length, and the checker accepts it: `worst_case_depth` gives that
/// length plus four.
pub proof fn lemma_value_producers_height(ops: Seq<Operator>)
    requires
        forall|i: int| 0 <= i < ops.len() ==> wasm_arity(#[trigger] ops[i]) == Some((0nat, 1nat)),
    ensures
        stack_height(ops) == ops.len(),
        classified_until_refused(ops),
        !has_unsupported_before(ops, ops.len() as int),
    decreases ops.len(),
{
    if ops.len() > 0 {
        let rest = ops.drop_last();
        assert forall|i: int| 0 <= i < rest.len() implies wasm_arity(#[trigger] rest[i]) == Some((0nat, 1nat)) by {
            assert(rest[i] == ops[i]);
        }
        lemma_value_producers_height(rest);
        lemma_value_producers_push(ops.last());
        assert(rest.push(ops.last()) =~= ops);
    }
    assert forall|i: int| 0 <= i < ops.len() implies !(#[trigger] stack_effect(ops[i]) is Unclassified)
        && !is_unsupported_at(ops, i) by {
        lemma_value_producers_push(ops[i]);
    }
}

/// Whether the operator at `i` belongs to an unsupported proposal.
pub open spec fn is_unsupported_at(ops: Seq<Operator>, i: int) -> bool {
    stack_effect(ops[i]) is Unsupported
}

/// Whether some operator before position `n` belongs to an unsupported proposal.
pub open spec fn has_unsupported_before(ops: Seq<Operator>, n: int) -> bool {
    exists|j: int| 0 <= j < n && is_unsupported_at(ops, j)
}

/// Every operator the checker does not account for comes after one that it refuses.
pub open spec fn classified_until_refused(ops: Seq<Operator>) -> bool {
    forall|i: int|
        0 <= i < ops.len() && #[trigger] stack_effect(ops[i]) is Unclassified
            ==> has_unsupported_before(ops, i)
}

/// The checker's refusal of an operator from an unsupported proposal.
#[derive(Clone, Debug, PartialEq, Eq)]
pub struct UnsupportedOperator {
    /// Where the operator stands in the function's code.
    pub position: usize,
    /// The proposal it belongs to.
    pub extension: Extension,
    /// The refused operator in debug form.
    pub operator: String,
}

/// The name the checker gives a proposal it refuses.
pub open spec fn extension_text(extension: Extension) -> Seq<char> {
    match extension {
        Extension::ExceptionHandling => "exception-handling"@,
        Extension::ReferenceTypes => "reference-types"@,
        Extension::BulkMemory => "bulk-memory-operations"@,
        Extension::Threads => "threads"@,
        Extension::Simd => "SIMD"@,
    }
}

impl UnsupportedOperator {
    /// The checker's error for the refusal: named "depth-checker failure",
    /// with a message naming the proposal that is not supported, followed by
    /// the refused operator.
    pub fn to_error(&self) -> (res: TransformError)
        ensures
            res.name() == "depth-checker failure"@,
            res.message() == extension_text(self.extension) + " extension not supported "@
                + self.operator@,
    {
        let mut message = match self.extension {
            Extension::ExceptionHandling => String::from_str("exception-handling"),
            Extension::ReferenceTypes => String::from_str("reference-types"),
            Extension::BulkMemory => String::from_str("bulk-memory-operations"),
            Extension::Threads => String::from_str("threads"),
            Extension::Simd => String::from_str("SIMD"),
        };
        message.append(" extension not supported ");
        message.append(self.operator.as_str());
        TransformError::new("depth-checker failure", message)
    }
}

/// An upper estimate of the stack words a function body needs: the height
/// reached by the body plus four words of frame, or the first operator that
/// belongs to an unsupported proposal.
pub fn worst_case_depth(code: &[Operator]) -> (res: Result<u32, UnsupportedOperator>)
    requires
        classified_until_refused(code@),
        code@.len() + 4 <= u32::MAX,
    ensures
        match res {
            Ok(depth) => {
                &&& !has_unsupported_before(code@, code@.len() as int)
                &&& depth == stack_height(code@) + 4
            },
            Err(e) => {
                &&& 0 <= e.position < code@.len()
                &&& stack_effect(code@[e.position as int]) == StackEffect::Unsupported(e.extension)
                &&& e.operator@ == unsupported_text(code@[e.position as int])
                &&& !has_unsupported_before(code@, e.position as int)
            },
        },
{
    let mut stack: u32 = 0;
    let mut i: usize = 0;
    while i < code.len()
        invariant
            i <= code@.len(),
            code@.len() + 4 <= u32::MAX,
            classified_until_refused(code@),
            stack as nat == stack_height(code@.take(i as int)),
            stack <= i,
            !has_unsupported_before(code@, i as int),
        decreases code@.len() - i,
    {
        let effect = code[i].stack_effect();
        proof {
            assert(code@.take(i + 1).drop_last() =~= code@.take(i as int));
            assert(code@.take(i + 1).last() == code@[i as int]);
        }
        match effect {
            StackEffect::Neutral => {},
            StackEffect::Push => {
                stack = stack + 1;
            },
            StackEffect::Pop => {
                stack = stack.saturating_sub(1);
            },
            StackEffect::PopTwo => {
                stack = stack.saturating_sub(2);
            },
            StackEffect::Unsupported(extension) => {
                let operator = code[i].unsupported_text();
                return Err(UnsupportedOperator { position: i, extension, operator });
            },
            StackEffect::Unclassified => {
                proof {
                    assert(stack_effect(code@[i as int]) is Unclassified);
                    assert(has_unsupported_before(code@, i as int));
                }
                assert(false);
            },
        }
        proof {
            assert forall|j: int| 0 <= j < i + 1 implies !is_unsupported_at(code@, j) by {
                if j < i {
                    assert(!is_unsupported_at(code@, j));
                }
            }
        }
        i = i + 1;
    }
    proof {
        assert(code@.take(code@.len() as int) =~= code@);
    }
    Ok(stack + 4)
}

} // verus!

verus! {

/// The words of stack space a function's frame is charged.
pub const FRAME_SIZE: i32 = 1;

/// The prologue that charges a frame: trap with an empty budget (setting the
/// budget to zero) when fewer than `FRAME_SIZE` words remain, then deduct them.
pub open spec fn depth_prologue(global_index: u32) -> Seq<Operator> {
    seq![
        Operator::GlobalGet { global_index },
        Operator::I32Const { value: FRAME_SIZE },
        Operator::I32LtU,
        Operator::If { ty: BlockType::Empty },
        Operator::I32Const { value: 0 },
        Operator::GlobalSet { global_index },
        Operator::Unreachable,
        Operator::End,
        Operator::GlobalGet { global_index },
        Operator::I32Const { value: FRAME_SIZE },
        Operator::I32Sub,
        Operator::GlobalSet { global_index },
    ]
}

/// The code that gives a frame's words back to the budget.
pub open spec fn depth_reclaim(global_index: u32) -> Seq<Operator> {
    seq![
        Operator::GlobalGet { global_index },
        Operator::I32Const { value: FRAME_SIZE },
        Operator::I32Add,
        Operator::GlobalSet { global_index },
    ]
}

/// The body with the frame given back before each `return`.
pub open spec fn reclaim_before_returns(global_index: u32, code: Seq<Operator>) -> Seq<Operator>
    decreases code.len(),
{
    if code.len() == 0 {
        Seq::empty()
    } else {
        let rest = reclaim_before_returns(global_index, code.drop_last());
        if code.last() is Return {
            rest + depth_reclaim(global_index).push(code.last())
        } else {
            rest.push(code.last())
        }
    }
}

/// A whole function as the depth checker emits it.
pub open spec fn depth_instrumented(global_index: u32, code: Seq<Operator>) -> Seq<Operator> {
    depth_prologue(global_index) + reclaim_before_returns(global_index, code) + depth_reclaim(global_index)
}

/// The per-function state of the depth checker.
#[derive(Debug)]
pub struct FunctionDepthChecker {
    /// The global holding the stack space left.
    pub space: u32,
    /// The function's operators seen so far.
    pub code: Vec<Operator>,
    /// The nesting of open blocks (never raised, so the first `end` closes the function).
    pub scopes: usize,
}

fn push_reclaim(out: &mut Vec<Operator>, global_index: u32)
    ensures
        final(out)@ == old(out)@ + depth_reclaim(global_index),
{
    out.push(Operator::GlobalGet { global_index });
    out.push(Operator::I32Const { value: FRAME_SIZE });
    out.push(Operator::I32Add);
    out.push(Operator::GlobalSet { global_index });
    proof {
        assert(final(out)@ =~= old(out)@ + depth_reclaim(global_index));
    }
}

impl FunctionDepthChecker {
    pub fn new(space: u32) -> (res: Self)
        ensures
            res.space == space,
            res.code@ == Seq::<Operator>::empty(),
            res.scopes == 0,
    {
        FunctionDepthChecker { space, code: Vec::new(), scopes: 0 }
    }

    /// Buffers the function's operators; on the `end` that closes it, emits the
    /// whole function with its prologue and with the frame reclaimed at every exit.
    pub fn feed(&mut self, operator: Operator, state: &mut Vec<Operator>)
        ensures
            final(self).space == old(self).space,
            final(self).scopes == old(self).scopes,
            (old(self).scopes == 0 && operator is End) ==> {
                &&& final(self).code@ == Seq::<Operator>::empty()
                &&& final(state)@ == old(state)@ + depth_instrumented(
                    old(self).space,
                    old(self).code@.push(operator),
                )
            },
            !(old(self).scopes == 0 && operator is End) ==> {
                &&& final(self).code@ == old(self).code@.push(operator)
                &&& final(state)@ == old(state)@
            },
    {
        let last = self.scopes == 0 && operator.is_end();
        self.code.push(operator);
        if !last {
            return;
        }
        let global_index = self.space;
        let mut prologue = vec![
            Operator::GlobalGet { global_index },
            Operator::I32Const { value: FRAME_SIZE },
            Operator::I32LtU,
            Operator::If { ty: BlockType::Empty },
            Operator::I32Const { value: 0 },
            Operator::GlobalSet { global_index },
            Operator::Unreachable,
            Operator::End,
            Operator::GlobalGet { global_index },
            Operator::I32Const { value: FRAME_SIZE },
            Operator::I32Sub,
            Operator::GlobalSet { global_index },
        ];
        proof {
            assert(prologue@ =~= depth_prologue(global_index));
        }
        state.append(&mut prologue);
        let mut code: Vec<Operator> = Vec::new();
        std::mem::swap(&mut code, &mut self.code);
        let ghost start = state@;
        let ghost all = code@;
        for op in it: code
            invariant
                all == it.seq(),
                state@ == start + reclaim_before_returns(global_index, all.take(it.index() as int)),
        {
            let ghost k = it.index();
            let exit = op.is_return();
            if exit {
                push_reclaim(state, global_index);
            }
            state.push(op);
            proof {
                assert(all.take(k + 1).drop_last() =~= all.take(k));
                assert(all.take(k + 1).last() == op);
            }
        }
        push_reclaim(state, global_index);
        proof {
            assert(all.take(all.len() as int) =~= all);
            assert(all == old(self).code@.push(operator));
            assert(state@ =~= old(state)@ + depth_instrumented(global_index, all));
        }
    }
}

} // verus!

verus! {

/// The depth-checking middleware.
#[derive(Debug)]
pub struct DepthChecker {
    /// The global holding the stack space left, once the module has been updated.
    pub global: Option<u32>,
    /// The maximum size of the stack, measured in words.
    pub limit: u32,
}

impl DepthChecker {
    pub fn new(limit: u32) -> (res: Self)
        ensures
            res.global is None,
            res.limit == limit,
    {
        DepthChecker { global: None, limit }
    }

    /// Adds the globals `polyglot_stack_space_left` and
    /// `polyglot_stack_size_limit`, both starting at the limit, and records the first.
    pub fn transform_module_info(&mut self, module: &mut ModuleInfo)
        requires
            old(self).global is None,
            old(module).globals@.len() + 2 <= u32::MAX,
        ensures
            final(self).limit == old(self).limit,
            final(self).global == Some(old(module).globals@.len() as u32),
            final(module).global_initializers@ == old(module).global_initializers@
                .push(GlobalInit::I32Const(old(self).limit as i32))
                .push(GlobalInit::I32Const(old(self).limit as i32)),
            final(module).globals@.len() == old(module).globals@.len() + 2,
            final(module).exports.get(polyglot_name("stack_space_left"@))
                == Some(ExportIndex::Global(old(module).globals@.len() as u32)),
            final(module).exports.get(polyglot_name("stack_size_limit"@))
                == Some(ExportIndex::Global((old(module).globals@.len() + 1) as u32)),
    {
        let limit = GlobalInit::I32Const(self.limit as i32);
        let space = add_global(module, "stack_space_left", ValType::I32, limit);
        add_global(module, "stack_size_limit", ValType::I32, limit);
        proof {
            reveal_strlit("stack_space_left");
            reveal_strlit("stack_size_limit");
            reveal_strlit("polyglot_");
            assert(polyglot_name("stack_space_left"@) != polyglot_name("stack_size_limit"@)) by {
                assert(polyglot_name("stack_space_left"@)[16] != polyglot_name("stack_size_limit"@)[16]);
            }
        }
        self.global = Some(space);
    }

    /// The per-function checker, charging the global the module was given.
    pub fn generate_function_middleware(&self) -> (res: FunctionDepthChecker)
        requires
            self.global is Some,
        ensures
            res.space == self.global->0,
            res.code@ == Seq::<Operator>::empty(),
            res.scopes == 0,
    {
        FunctionDepthChecker::new(self.global.unwrap())
    }
}

/// The two depth-checking globals of an instrumented instance.
#[derive(Clone, Copy, Debug, PartialEq, Eq)]
pub struct StackGlobals {
    /// `polyglot_stack_space_left`
    pub space_left: u32,
    /// `polyglot_stack_size_limit`
    pub size_limit: u32,
}

/// The stack space left.
pub fn stack_space_remaining(instance: &StackGlobals) -> (res: u32)
    ensures
        res == instance.space_left,
{
    instance.space_left
}

/// The stack space in use: the limit less the space left.
pub fn stack_size(instance: &StackGlobals) -> (res: u32)
    requires
        instance.space_left <= instance.size_limit,
    ensures
        res == instance.size_limit - instance.space_left,
{
    instance.size_limit - instance.space_left
}

/// Gives back all the stack space.
pub fn reset_stack(instance: &mut StackGlobals)
    ensures
        final(instance).space_left == old(instance).size_limit,
        final(instance).size_limit == old(instance).size_limit,
{
    let limit = instance.size_limit;
    instance.space_left = limit;
}

/// Changes the limit, moving the space left by the change (saturating at both ends).
pub fn set_stack_limit(instance: &mut StackGlobals, new_limit: u32)
    ensures
        final(instance).size_limit == new_limit,
        final(instance).space_left == {
            let raised = if old(instance).space_left + new_limit > u32::MAX { u32::MAX as int }
                else { old(instance).space_left + new_limit };
            if raised < old(instance).size_limit { 0 } else { raised - old(instance).size_limit }
        },
{
    let limit = instance.size_limit;
    let space = instance.space_left;
    let space = space.saturating_add(new_limit).saturating_sub(limit);
    instance.size_limit = new_limit;
    instance.space_left = space;
}

} // verus!
