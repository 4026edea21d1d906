//! Operator counting: each basic block is preceded by code that adds, for
//! every kind of operator in the block, how many of that kind will run, to a
//! global counter for that kind (the counting code counting itself too).

use vstd::prelude::*;
use crate::wasm::operator::{Operator, ValType, ends_basic_block, op_code, OPERATOR_COUNT};
use crate::wasm::module::{ModuleInfo, GlobalInit, decimal, decimal_string};

verus! {

/// The code that adds `value` to global `global_index`.
pub open spec fn update_ops(global_index: u32, value: i64) -> Seq<Operator> {
    seq![
        Operator::GlobalGet { global_index },
        Operator::I64Const { value },
        Operator::I64Add,
        Operator::GlobalSet { global_index },
    ]
}

fn build_update(global_index: u32, value: i64) -> (res: Vec<Operator>)
    ensures
        res@ == update_ops(global_index, value),
{
    let res = vec![
        Operator::GlobalGet { global_index },
        Operator::I64Const { value },
        Operator::I64Add,
        Operator::GlobalSet { global_index },
    ];
    proof {
        assert(res@ =~= update_ops(global_index, value));
    }
    res
}

/// The codes of the operators, each once, in the order they first occur.
pub open spec fn codes_in_order(ops: Seq<Operator>) -> Seq<usize>
    decreases ops.len(),
{
    if ops.len() == 0 {
        Seq::empty()
    } else {
        let codes = codes_in_order(ops.drop_last());
        if codes.contains(op_code(ops.last())) { codes } else { codes.push(op_code(ops.last())) }
    }
}

/// How many of the operators have the given code.
pub open spec fn occurrences(ops: Seq<Operator>, code: usize) -> nat
    decreases ops.len(),
{
    if ops.len() == 0 {
        0
    } else {
        occurrences(ops.drop_last(), code) + if op_code(ops.last()) == code { 1nat } else { 0nat }
    }
}

/// The name of the counter global for operator code `index`.
pub open spec fn counter_name(index: usize) -> Seq<char> {
    "stylus_opcode"@ + decimal(index as u64) + "_count"@
}

/// The counting middleware.
#[derive(Debug)]
pub struct Counter {
    /// The counter global of each operator code.
    pub counters: Vec<u32>,
}

impl Counter {
    pub fn new() -> (res: Self)
        ensures
            res.counters@ == Seq::<u32>::empty(),
    {
        Counter { counters: Vec::new() }
    }

    /// The name of the counter global for operator code `index`.
    pub fn global_name(index: usize) -> (res: String)
        ensures
            res@ == counter_name(index),
    {
        let mut name = String::from_str("stylus_opcode");
        let digits = decimal_string(index as u64);
        name.append(digits.as_str());
        name.append("_count");
        name
    }

    /// Adds a zeroed 64-bit counter global for every operator code and records them.
    pub fn update_module(&mut self, module: &mut ModuleInfo)
        requires
            old(module).globals@.len() + OPERATOR_COUNT <= u32::MAX,
        ensures
            final(self).counters@ == old(self).counters@
                + Seq::new(OPERATOR_COUNT as nat, |i: int| (old(module).globals@.len() + i) as u32),
            final(module).globals@.len() == old(module).globals@.len() + OPERATOR_COUNT,
    {
        let ghost start = module.globals@.len();
        let ghost before = self.counters@;
        let mut index: usize = 0;
        while index < OPERATOR_COUNT
            invariant
                index <= OPERATOR_COUNT,
                start + OPERATOR_COUNT <= u32::MAX,
                module.globals@.len() == start + index,
                self.counters@ == before + Seq::new(index as nat, |i: int| (start + i) as u32),
            decreases OPERATOR_COUNT - index,
        {
            let name = Self::global_name(index);
            let global = module.add_global(name.as_str(), ValType::I64, GlobalInit::I64Const(0));
            self.counters.push(global);
            proof {
                assert(self.counters@ =~= before + Seq::new((index + 1) as nat, |i: int| (start + i) as u32));
            }
            index = index + 1;
        }
    }

    /// The per-function counter.
    pub fn instrument(&self) -> (res: FuncCounter)
        ensures
            res.counters@ == self.counters@,
            res.block@ == Seq::<Operator>::empty(),
    {
        let mut counters: Vec<u32> = Vec::new();
        let mut i: usize = 0;
        while i < self.counters.len()
            invariant
                i <= self.counters@.len(),
                counters@ == self.counters@.take(i as int),
            decreases self.counters@.len() - i,
        {
            counters.push(self.counters[i]);
            proof {
                assert(counters@ =~= self.counters@.take(i + 1));
            }
            i = i + 1;
        }
        proof {
            assert(self.counters@.take(self.counters@.len() as int) =~= self.counters@);
        }
        FuncCounter { counters, block: Vec::new() }
    }

    pub fn name(&self) -> (res: &'static str)
        ensures
            res@ == "operator counter"@,
    {
        "operator counter"
    }
}

/// The per-function state of the counter.
#[derive(Debug)]
pub struct FuncCounter {
    /// The counter global of each operator code.
    pub counters: Vec<u32>,
    /// The operators of the current basic block.
    pub block: Vec<Operator>,
}

} // verus!

verus! {

/// Whether a code is one of the four the counting code itself uses.
pub open spec fn is_counting_code(code: usize) -> bool {
    ||| code == op_code(Operator::GlobalGet { global_index: 0 })
    ||| code == op_code(Operator::I64Const { value: 0 })
    ||| code == op_code(Operator::I64Add)
    ||| code == op_code(Operator::GlobalSet { global_index: 0 })
}

proof fn lemma_codes_in_order(ops: Seq<Operator>)
    ensures
        forall|c: usize| #[trigger] codes_in_order(ops).contains(c) <==> occurrences(ops, c) > 0,
        forall|i: int, j: int| 0 <= i < j < codes_in_order(ops).len() ==> codes_in_order(ops)[i] != codes_in_order(ops)[j],
    decreases ops.len(),
{
    if ops.len() > 0 {
        lemma_codes_in_order(ops.drop_last());
        let prev = codes_in_order(ops.drop_last());
        let c = op_code(ops.last());
        if !prev.contains(c) {
            assert forall|d: usize| #[trigger] prev.push(c).contains(d) <==> (prev.contains(d) || d == c) by {
                if prev.push(c).contains(d) {
                    let k = choose|k: int| 0 <= k < prev.push(c).len() && prev.push(c)[k] == d;
                    if k < prev.len() {
                        assert(prev[k] == d);
                    }
                }
                if prev.contains(d) {
                    let k = choose|k: int| 0 <= k < prev.len() && prev[k] == d;
                    assert(prev.push(c)[k] == d);
                }
                if d == c {
                    assert(prev.push(c)[prev.len() as int] == d);
                }
            }
        }
    }
}

proof fn lemma_codes_len(ops: Seq<Operator>)
    ensures
        codes_in_order(ops).len() <= ops.len(),
    decreases ops.len(),
{
    if ops.len() > 0 {
        lemma_codes_len(ops.drop_last());
    }
}

fn find_code(codes: &Vec<usize>, code: usize) -> (res: Option<usize>)
    ensures
        res matches Some(j) ==> j < codes@.len() && codes@[j as int] == code,
        res is None ==> !codes@.contains(code),
{
    let mut j: usize = 0;
    while j < codes.len()
        invariant
            j <= codes@.len(),
            forall|k: int| 0 <= k < j ==> codes@[k] != code,
        decreases codes@.len() - j,
    {
        if codes[j] == code {
            return Some(j);
        }
        j = j + 1;
    }
    None
}

fn is_counting_code_exec(code: usize) -> (res: bool)
    ensures
        res == is_counting_code(code),
{
    code == Operator::GlobalGet { global_index: 0 }.code()
        || code == Operator::I64Const { value: 0 }.code()
        || code == Operator::I64Add.code()
        || code == Operator::GlobalSet { global_index: 0 }.code()
}

/// The block with one counting sequence after it, as the counts see it.
pub open spec fn counted_ops(block: Seq<Operator>) -> Seq<Operator> {
    block + update_ops(0, 0)
}

/// The count recorded for a code once the counting code is accounted for.
pub open spec fn adjusted_count(all: Seq<Operator>, code: usize) -> int {
    occurrences(all, code) + if is_counting_code(code) { codes_in_order(all).len() - 1 } else { 0 }
}

impl FuncCounter {
    /// Adds an operator to the current block; when it ends the block, emits,
    /// for each kind of operator the block and its counting code hold (in the
    /// order they first occur), code adding that kind's count to its counter,
    /// then the block. A kind without a counter is an error. (The block's
    /// length is bounded only by what a vector can hold.)
    pub fn feed(&mut self, op: Operator, out: &mut Vec<Operator>) -> (res: Result<(), String>)
        requires
            old(self).block@.len() + 5 <= usize::MAX,
            old(self).block@.len() < 0x3FFF_FFFF_FFFF_FFF0,
        ensures
            final(self).counters == old(self).counters,
            !ends_basic_block(op) ==> {
                &&& res is Ok
                &&& final(self).block@ == old(self).block@.push(op)
                &&& final(out)@ == old(out)@
            },
            ends_basic_block(op) ==> {
                let all = counted_ops(old(self).block@.push(op));
                let codes = codes_in_order(all);
                let counters = old(self).counters@;
                match res {
                    Ok(()) => {
                        &&& forall|k: int| 0 <= k < codes.len() ==> (#[trigger] codes[k] as int) < counters.len()
                        &&& final(out)@ == old(out)@ + counter_updates(counters, all, codes) + old(self).block@.push(op)
                        &&& final(self).block@ == Seq::<Operator>::empty()
                    },
                    Err(e) => exists|k: int| {
                        &&& 0 <= k < codes.len()
                        &&& codes[k] as int >= counters.len()
                        &&& forall|j: int| 0 <= j < k ==> (#[trigger] codes[j] as int) < counters.len()
                        &&& final(out)@ == old(out)@ + counter_updates(counters, all, codes.take(k))
                        &&& final(self).block@ == old(self).block@.push(op)
                        &&& e@ == "no global"@
                    },
                }
            },
    {
        let end = op.ends_basic_block();
        self.block.push(op);
        if !end {
            return Ok(());
        }
        let template = build_update(0, 0);
        let ghost all = counted_ops(self.block@);
        let n = self.block.len();
        let mut codes: Vec<usize> = Vec::new();
        let mut counts: Vec<i64> = Vec::new();
        let mut i: usize = 0;
        while i < n + 4
            invariant
                n == self.block@.len(),
                n + 4 <= usize::MAX,
                n < 0x3FFF_FFFF_FFFF_FFF1,
                out@ == old(out)@,
                template@ == update_ops(0, 0),
                all == self.block@ + template@,
                i <= n + 4,
                codes@ == codes_in_order(all.take(i as int)),
                counts@.len() == codes@.len(),
                forall|j: int| 0 <= j < codes@.len() ==> #[trigger] counts@[j] == occurrences(all.take(i as int), codes@[j]),
                forall|j: int| 0 <= j < codes@.len() ==> occurrences(all.take(i as int), #[trigger] codes@[j]) <= i,
            decreases n + 4 - i,
        {
            let code = if i < n { self.block[i].code() } else { template[i - n].code() };
            let ghost prefix = all.take(i as int);
            let ghost next = all.take(i + 1);
            proof {
                assert(next.drop_last() =~= prefix);
                assert(next.last() == all[i as int]);
                assert(op_code(all[i as int]) == code);
                lemma_codes_in_order(prefix);
            }
            match find_code(&codes, code) {
                Some(j) => {
                    let c = counts[j];
                    counts.set(j, c + 1);
                    proof {
                        assert(codes_in_order(next) == codes_in_order(prefix));
                        assert forall|k: int| 0 <= k < codes@.len() implies #[trigger] counts@[k] == occurrences(next, codes@[k]) by {}
                    }
                },
                None => {
                    codes.push(code);
                    counts.push(1);
                    proof {
                        lemma_codes_in_order(prefix);
                        assert(occurrences(prefix, code) == 0);
                        assert forall|k: int| 0 <= k < codes@.len() implies #[trigger] counts@[k] == occurrences(next, codes@[k]) by {
                            if k < codes@.len() - 1 {
                                assert(codes@[k] != code) by {
                                    assert(codes_in_order(prefix)[k] == codes@[k]);
                                }
                            }
                        }
                    }
                },
            }
            i = i + 1;
        }
        proof {
            assert(all.take((n + 4) as int) =~= all);
        }
        proof {
            lemma_codes_len(all);
        }
        let kinds = codes.len() as i64;
        let mut j: usize = 0;
        while j < codes.len()
            invariant
                codes@ == codes_in_order(all),
                counts@.len() == codes@.len(),
                out@ == old(out)@,
                kinds == codes@.len(),
                kinds <= n + 4,
                n + 4 <= usize::MAX,
                n < 0x3FFF_FFFF_FFFF_FFF1,
                j <= codes@.len(),
                forall|k: int| 0 <= k < j ==> #[trigger] counts@[k] == adjusted_count(all, codes@[k]),
                forall|k: int| j <= k < codes@.len() ==> #[trigger] counts@[k] == occurrences(all, codes@[k]),
                forall|k: int| 0 <= k < codes@.len() ==> occurrences(all, #[trigger] codes@[k]) <= n + 4,
            decreases codes@.len() - j,
        {
            if is_counting_code_exec(codes[j]) {
                let c = counts[j];
                counts.set(j, c + kinds - 1);
            }
            j = j + 1;
        }
        let ghost counters = self.counters@;
        let ghost start = out@;
        let mut k: usize = 0;
        while k < codes.len()
            invariant
                codes@ == codes_in_order(all),
                counts@.len() == codes@.len(),
                counters == self.counters@,
                start == old(out)@,
                self.counters == old(self).counters,
                self.block@ == old(self).block@.push(op),
                ends_basic_block(op),
                all == counted_ops(old(self).block@.push(op)),
                k <= codes@.len(),
                forall|m: int| 0 <= m < codes@.len() ==> #[trigger] counts@[m] == adjusted_count(all, codes@[m]),
                forall|m: int| 0 <= m < k ==> (#[trigger] codes@[m] as int) < counters.len(),
                out@ == start + counter_updates(counters, all, codes@.take(k as int)),
            decreases codes@.len() - k,
        {
            let code = codes[k];
            if code >= self.counters.len() {
                let e = String::from_str("no global");
                proof {
                    let kk = k as int;
                    assert(0 <= kk < codes@.len() && codes@[kk] as int >= counters.len());
                    assert(out@ == old(out)@ + counter_updates(counters, all, codes@.take(kk)));
                }
                return Err(e);
            }
            let global = self.counters[code];
            let mut update = build_update(global, counts[k]);
            out.append(&mut update);
            proof {
                assert(codes@.take(k + 1).drop_last() =~= codes@.take(k as int));
                assert(codes@.take(k + 1).last() == code);
            }
            k = k + 1;
        }
        proof {
            assert(codes@.take(codes@.len() as int) =~= codes@);
        }
        out.append(&mut self.block);
        Ok(())
    }

    pub fn name(&self) -> (res: &'static str)
        ensures
            res@ == "operator counter"@,
    {
        "operator counter"
    }
}

/// The counting code for the given kinds, in order.
pub open spec fn counter_updates(counters: Seq<u32>, all: Seq<Operator>, codes: Seq<usize>) -> Seq<Operator>
    decreases codes.len(),
{
    if codes.len() == 0 {
        Seq::empty()
    } else {
        counter_updates(counters, all, codes.drop_last())
            + update_ops(counters[codes.last() as int], adjusted_count(all, codes.last()) as i64)
    }
}

} // verus!

verus! {

/// A count that can be read and is not zero.
pub open spec fn nonzero_count(count: Option<usize>) -> bool {
    count matches Some(c) && c != 0
}

/// `counts` lists, in increasing order of code, exactly the operator codes
/// below `n` whose recorded count is nonzero, each with its count.
pub open spec fn lists_nonzero_counts(counts: Seq<(usize, usize)>, recorded: spec_fn(usize) -> Option<usize>, n: nat) -> bool {
    &&& forall|i: int| 0 <= i < counts.len() ==> (#[trigger] counts[i]).0 < n && counts[i].1 != 0
        && recorded(counts[i].0) == Some(counts[i].1)
    &&& forall|i: int, j: int| 0 <= i < j < counts.len() ==> counts[i].0 < counts[j].0
    &&& forall|op: usize| op < n && nonzero_count(#[trigger] recorded(op))
        ==> exists|i: int| 0 <= i < counts.len() && (#[trigger] counts[i]).0 == op
}

/// A machine whose operator counters can be read.
pub trait CountingMachine {
    /// The count the machine records for operator code `op`, where it can be read.
    spec fn recorded(&self, op: usize) -> Option<usize>;

    /// The count recorded for operator code `op`; reading changes no count.
    fn operator_count(&mut self, op: usize) -> (res: Result<usize, String>)
        ensures
            res is Ok <==> old(self).recorded(op) is Some,
            res matches Ok(c) ==> old(self).recorded(op) == Some(c),
            forall|k: usize| #[trigger] final(self).recorded(k) == old(self).recorded(k),
    ;

    /// The nonzero counts, by operator code in increasing order; refused
    /// where some operator's count cannot be read.
    fn operator_counts(&mut self) -> (res: Result<Vec<(usize, usize)>, String>)
        ensures
            res is Ok <==> forall|op: usize| op < OPERATOR_COUNT ==> (#[trigger] old(self).recorded(op)) is Some,
            res matches Ok(counts) ==> lists_nonzero_counts(counts@, |op: usize| old(self).recorded(op), OPERATOR_COUNT as nat),
            forall|k: usize| #[trigger] final(self).recorded(k) == old(self).recorded(k),
    {
        let mut counts: Vec<(usize, usize)> = Vec::new();
        let mut op: usize = 0;
        while op < OPERATOR_COUNT
            invariant
                op <= OPERATOR_COUNT,
                forall|k: usize| #[trigger] self.recorded(k) == old(self).recorded(k),
                forall|k: usize| k < op ==> (#[trigger] old(self).recorded(k)) is Some,
                lists_nonzero_counts(counts@, |k: usize| old(self).recorded(k), op as nat),
            decreases OPERATOR_COUNT - op,
        {
            let count = match self.operator_count(op) {
                Ok(count) => count,
                Err(e) => return Err(e),
            };
            let ghost before = counts@;
            if count != 0 {
                counts.push((op, count));
                proof {
                    assert(counts@[counts@.len() - 1].0 == op);
                }
            }
            proof {
                let rec = |k: usize| old(self).recorded(k);
                assert forall|k: usize| k < op + 1 && nonzero_count(#[trigger] rec(k))
                    implies exists|i: int| 0 <= i < counts@.len() && (#[trigger] counts@[i]).0 == k by {
                    if k < op {
                        let i = choose|i: int| 0 <= i < before.len() && (#[trigger] before[i]).0 == k;
                        assert(counts@[i] == before[i]);
                    } else {
                        assert(counts@[counts@.len() - 1].0 == k);
                    }
                }
            }
            op = op + 1;
        }
        Ok(counts)
    }
}

/// The operator-counter globals of a machine, by operator code.
#[derive(Clone, Debug, PartialEq, Eq)]
pub struct CounterGlobals {
    pub values: Vec<u64>,
}

impl CountingMachine for CounterGlobals {
    open spec fn recorded(&self, op: usize) -> Option<usize> {
        if op < self.values@.len() { Some(self.values@[op as int] as usize) } else { None }
    }

    /// The counter global of `op`; refused where the machine has none.
    fn operator_count(&mut self, op: usize) -> (res: Result<usize, String>) {
        if op < self.values.len() {
            Ok(self.values[op] as usize)
        } else {
            Err(String::from_str("no global"))
        }
    }
}

} // verus!
