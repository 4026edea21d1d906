//! Random straight-line WAT programs for pricing instructions: payload
//! instructions (adds, multiplies, local stores) with the stack kept deep
//! enough for each of them, and a count of every opcode written.

use vstd::prelude::*;
use rand::Rng;
use rand::distributions::Distribution;
use rand::distributions::WeightedIndex;
use rand_pcg::Lcg64Xsh32;
use crate::wasm::module::{decimal, decimal_string};

verus! {

/// The random source the programs are drawn from (`rand_pcg::Pcg32`).
#[verifier::external_type_specification]
#[verifier::external_body]
pub struct ExPcg32(Lcg64Xsh32);

/// A weighted choice among indices, held in `rand`'s `WeightedIndex`.
#[verifier::external_body]
pub struct WeightedChoice {
    dist: WeightedIndex<i32>,
}

/// The weights a weighted choice was made with.
pub uninterp spec fn weights_of(choice: WeightedChoice) -> Seq<i32>;

/// The sum of a sequence of weights.
pub open spec fn weight_sum(weights: Seq<i32>) -> int
    decreases weights.len(),
{
    if weights.len() == 0 {
        0
    } else {
        weight_sum(weights.drop_last()) + weights.last()
    }
}

/// `Rng::gen_range` over an inclusive range of `i32`: a value in the range.
/// (For integers the half-open `low..high` draws as `low..=high - 1`.)
#[verifier::external_body]
fn gen_range_i32(rng: &mut Lcg64Xsh32, low: i32, high: i32) -> (res: i32)
    requires
        low <= high,
    ensures
        low <= res <= high,
{
    rng.gen_range(low..=high)
}

/// `WeightedIndex::new`: a choice among the indices of `weights`, which must be
/// non-empty, non-negative, with a positive total that fits the weight type.
#[verifier::external_body]
fn weighted_index(weights: &[i32]) -> (res: WeightedChoice)
    requires
        weights@.len() > 0,
        forall|i: int| 0 <= i < weights@.len() ==> weights@[i] >= 0,
        0 < weight_sum(weights@) <= i32::MAX,
    ensures
        weights_of(res) == weights@,
{
    WeightedChoice { dist: WeightedIndex::new(weights).unwrap() }
}

/// `Distribution::sample` of a `WeightedIndex`: one of its indices, drawn
/// with probability its weight over the total, so never one of weight zero.
#[verifier::external_body]
fn sample_index(choice: &WeightedChoice, rng: &mut Lcg64Xsh32) -> (res: usize)
    ensures
        res < weights_of(*choice).len(),
        weights_of(*choice)[res as int] > 0,
{
    choice.dist.sample(rng)
}

/// The opcodes the generated programs are made of.
#[derive(Clone, Copy, Debug, PartialEq, Eq, Hash, Structural)]
pub enum Opcode {
    I32Add,
    I32Mul,
    Drop,
    I32Const,
    LocalSet,
    LocalGet,
    LocalTee,
}

/// The number of opcodes.
pub const OPCODE_COUNT: usize = 7;

/// An opcode's position in the opcode counts.
pub open spec fn opcode_index(op: Opcode) -> int {
    match op {
        Opcode::I32Add => 0,
        Opcode::I32Mul => 1,
        Opcode::Drop => 2,
        Opcode::I32Const => 3,
        Opcode::LocalSet => 4,
        Opcode::LocalGet => 5,
        Opcode::LocalTee => 6,
    }
}

/// An opcode's mnemonic in WAT.
pub open spec fn opcode_text(op: Opcode) -> Seq<char> {
    match op {
        Opcode::I32Add => "i32.add"@,
        Opcode::I32Mul => "i32.mul"@,
        Opcode::Drop => "drop"@,
        Opcode::I32Const => "i32.const"@,
        Opcode::LocalSet => "local.set"@,
        Opcode::LocalGet => "local.get"@,
        Opcode::LocalTee => "local.tee"@,
    }
}

/// How deep the stack must be for an opcode, and how much it changes it.
pub open spec fn stack_req(op: Opcode) -> (int, int) {
    match op {
        Opcode::I32Add => (2, -1),
        Opcode::I32Mul => (2, -1),
        Opcode::Drop => (1, -1),
        Opcode::I32Const => (0, 1),
        Opcode::LocalSet => (1, -1),
        Opcode::LocalGet => (0, 1),
        Opcode::LocalTee => (1, 0),
    }
}

impl Opcode {
    /// The opcode's mnemonic in WAT.
    pub fn to_str(&self) -> (res: &'static str)
        ensures
            res@ == opcode_text(*self),
    {
        match self {
            Opcode::I32Add => "i32.add",
            Opcode::I32Mul => "i32.mul",
            Opcode::Drop => "drop",
            Opcode::I32Const => "i32.const",
            Opcode::LocalSet => "local.set",
            Opcode::LocalGet => "local.get",
            Opcode::LocalTee => "local.tee",
        }
    }

    /// The opcode's position in the opcode counts.
    pub fn index(&self) -> (res: usize)
        ensures
            res == opcode_index(*self),
    {
        match self {
            Opcode::I32Add => 0,
            Opcode::I32Mul => 1,
            Opcode::Drop => 2,
            Opcode::I32Const => 3,
            Opcode::LocalSet => 4,
            Opcode::LocalGet => 5,
            Opcode::LocalTee => 6,
        }
    }
}

/// How deep the stack must be for an opcode, and the net change it makes.
pub fn opcode_stack_req(op: Opcode) -> (res: (i32, i32))
    ensures
        res.0 == stack_req(op).0,
        res.1 == stack_req(op).1,
{
    match op {
        Opcode::I32Add => (2, -1),
        Opcode::I32Mul => (2, -1),
        Opcode::Drop => (1, -1),
        Opcode::I32Const => (0, 1),
        Opcode::LocalSet => (1, -1),
        Opcode::LocalGet => (0, 1),
        Opcode::LocalTee => (1, 0),
    }
}

/// An `i32` in decimal, with a minus sign when negative.
pub open spec fn int_text(i: i32) -> Seq<char> {
    if i < 0 {
        "-"@ + decimal((0 - i) as u64)
    } else {
        decimal(i as u64)
    }
}

fn int_string(i: i32) -> (res: String)
    ensures
        res@ == int_text(i),
{
    if i < 0 {
        let magnitude: i64 = 0 - (i as i64);
        let digits = decimal_string(magnitude as u64);
        let mut text = String::from_str("-");
        text.append(digits.as_str());
        text
    } else {
        decimal_string(i as u64)
    }
}

/// One line of WAT: the mnemonic, the argument if there is one, a newline.
pub open spec fn render_op(op: Opcode, argument: Option<i32>) -> Seq<char> {
    opcode_text(op) + match argument {
        Some(i) => " "@ + int_text(i),
        None => Seq::empty(),
    } + "\n"@
}

/// The WAT lines of a sequence of instructions.
pub open spec fn render(ops: Seq<(Opcode, Option<i32>)>) -> Seq<char>
    decreases ops.len(),
{
    if ops.len() == 0 {
        Seq::empty()
    } else {
        render(ops.drop_last()) + render_op(ops.last().0, ops.last().1)
    }
}

/// How many of the instructions have the opcode at position `k`.
pub open spec fn occurrences(ops: Seq<(Opcode, Option<i32>)>, k: int) -> int
    decreases ops.len(),
{
    if ops.len() == 0 {
        0
    } else {
        occurrences(ops.drop_last(), k) + if opcode_index(ops.last().0) == k { 1int } else { 0 }
    }
}

/// The stack height after the instructions, from an empty stack; `None`
/// where one of them finds the stack too shallow.
pub open spec fn stack_height(ops: Seq<(Opcode, Option<i32>)>) -> Option<int>
    decreases ops.len(),
{
    if ops.len() == 0 {
        Some(0)
    } else {
        match stack_height(ops.drop_last()) {
            Some(h) => if h >= stack_req(ops.last().0).0 {
                Some(h + stack_req(ops.last().0).1)
            } else {
                None
            },
            None => None,
        }
    }
}

/// An instruction's argument fits its opcode: locals among the `n` locals and
/// the parameter, a constant for `i32.const`, nothing for the rest.
pub open spec fn well_formed_op(op: Opcode, argument: Option<i32>, n: int) -> bool {
    match op {
        Opcode::LocalGet | Opcode::LocalSet | Opcode::LocalTee => argument matches Some(i) && 0 <= i <= n,
        Opcode::I32Const => argument is Some,
        _ => argument is None,
    }
}

/// The text a program starts with: the module and its `main` function.
pub open spec fn wat_prefix() -> Seq<char> {
    "\n        (module\n          (func $main (export \"main\") (param i32) (result i32)\n        "@
}

/// The text a program ends with: the return and the exported memory.
pub open spec fn wat_suffix() -> Seq<char> {
    "\n            return\n            )\n            (memory (export \"memory\") 0)\n        )  \n        "@
}

/// `s` repeated `n` times.
pub open spec fn repeat(s: Seq<char>, n: nat) -> Seq<char>
    decreases n,
{
    if n == 0 {
        Seq::empty()
    } else {
        repeat(s, (n - 1) as nat) + s
    }
}

/// The declaration of `n` `i32` locals.
pub open spec fn locals_decl(n: nat) -> Seq<char> {
    "(local"@ + repeat(" i32"@, n) + ")\n"@
}

/// A WAT program being written, with a count of each opcode written.
pub struct WatBuilder {
    pub wat: String,
    /// How many times each opcode was written, by its position.
    pub opcode_counts: Vec<i32>,
    /// The instructions written so far.
    pub ops: Ghost<Seq<(Opcode, Option<i32>)>>,
}

impl WatBuilder {
    /// The instructions written so far.
    pub open spec fn ops(&self) -> Seq<(Opcode, Option<i32>)> {
        self.ops@
    }

    /// The counts are those of the instructions written.
    pub open spec fn counts_match(&self) -> bool {
        &&& self.opcode_counts@.len() == OPCODE_COUNT
        &&& forall|k: int| 0 <= k < OPCODE_COUNT ==> #[trigger] self.opcode_counts@[k] == occurrences(self.ops(), k)
    }

    /// A program with only its start written.
    pub fn new() -> (res: WatBuilder)
        ensures
            res.wat@ == wat_prefix(),
            res.ops() == Seq::<(Opcode, Option<i32>)>::empty(),
            res.counts_match(),
    {
        let wat = String::from_str("\n        (module\n          (func $main (export \"main\") (param i32) (result i32)\n        ");
        let opcode_counts: Vec<i32> = vec![0, 0, 0, 0, 0, 0, 0];
        let res = WatBuilder { wat, opcode_counts, ops: Ghost(Seq::empty()) };
        proof {
            assert forall|k: int| 0 <= k < OPCODE_COUNT implies #[trigger] res.opcode_counts@[k] == occurrences(res.ops(), k) by {}
        }
        res
    }

    fn count_opcode(&mut self, op: Opcode)
        requires
            old(self).opcode_counts@.len() == OPCODE_COUNT,
            old(self).opcode_counts@[opcode_index(op)] < i32::MAX,
        ensures
            final(self).opcode_counts@ == old(self).opcode_counts@.update(opcode_index(op),
                (old(self).opcode_counts@[opcode_index(op)] + 1) as i32),
            final(self).wat == old(self).wat,
            final(self).ops() == old(self).ops(),
    {
        let k = op.index();
        let count = self.opcode_counts[k];
        self.opcode_counts.set(k, count + 1);
    }

    /// Writes one instruction on a line of its own and counts it.
    pub fn add_opcode(&mut self, op: Opcode, argument: Option<i32>)
        requires
            old(self).counts_match(),
            occurrences(old(self).ops(), opcode_index(op)) < i32::MAX,
        ensures
            final(self).counts_match(),
            final(self).wat@ == old(self).wat@ + render_op(op, argument),
            final(self).ops() == old(self).ops().push((op, argument)),
    {
        let ghost before = self.ops@;
        self.wat.append(op.to_str());
        match argument {
            Some(i) => {
                self.wat.append(" ");
                let text = int_string(i);
                self.wat.append(text.as_str());
            },
            None => {},
        }
        self.wat.append("\n");
        self.count_opcode(op);
        proof {
            self.ops = Ghost(before.push((op, argument)));
            assert(before.push((op, argument)).drop_last() =~= before);
            assert forall|k: int| 0 <= k < OPCODE_COUNT implies #[trigger] self.opcode_counts@[k] == occurrences(self.ops(), k) by {
                assert(occurrences(self.ops(), k) == occurrences(before, k) + if opcode_index(op) == k { 1int } else { 0 });
            }
            reveal_strlit(" ");
            reveal_strlit("\n");
            assert(before.push((op, argument)).last() == (op, argument));
        }
    }

    /// Writes raw text.
    pub fn push_str(&mut self, text: &str)
        ensures
            final(self).wat@ == old(self).wat@ + text@,
            final(self).opcode_counts == old(self).opcode_counts,
            final(self).ops() == old(self).ops(),
    {
        self.wat.append(text);
    }

    /// Writes the end of the program: the return and the exported memory.
    pub fn finish_wat(&mut self)
        ensures
            final(self).wat@ == old(self).wat@ + wat_suffix(),
            final(self).opcode_counts == old(self).opcode_counts,
            final(self).ops() == old(self).ops(),
    {
        self.wat.append("\n            return\n            )\n            (memory (export \"memory\") 0)\n        )  \n        ");
    }
}

/// Whether an opcode is one of the payloads being priced.
pub open spec fn is_payload(op: Opcode) -> bool {
    op == Opcode::LocalSet || op == Opcode::I32Add || op == Opcode::I32Mul
}

/// How many of the instructions are payloads.
pub open spec fn payload_count(ops: Seq<(Opcode, Option<i32>)>) -> int
    decreases ops.len(),
{
    if ops.len() == 0 {
        0
    } else {
        payload_count(ops.drop_last()) + if is_payload(ops.last().0) { 1int } else { 0 }
    }
}

/// The number of payloads a program is asked for: none when not positive.
pub open spec fn payloads_asked(set_payload_num: i32) -> int {
    if set_payload_num > 0 { set_payload_num as int } else { 0 }
}

/// The instructions that set each local `1..=n` to its own index.
pub open spec fn init_locals(n: nat) -> Seq<(Opcode, Option<i32>)>
    decreases n,
{
    if n == 0 {
        Seq::empty()
    } else {
        init_locals((n - 1) as nat) + seq![(Opcode::I32Const, Some(n as i32)), (Opcode::LocalSet, Some(n as i32))]
    }
}

/// The instructions that push the parameter and the locals `1..=n`.
pub open spec fn local_gets(n: nat) -> Seq<(Opcode, Option<i32>)> {
    Seq::new(n + 1, |i: int| (Opcode::LocalGet, Some(i as i32)))
}

/// `k` additions.
pub open spec fn adds(k: nat) -> Seq<(Opcode, Option<i32>)> {
    Seq::new(k, |i: int| (Opcode::I32Add, None))
}

/// The shape of a generated program over `n` locals: it sets the locals,
/// pushes the parameter, then runs payloads (local stores, adds and
/// multiplies) with the pushes (of locals or constants) that each one needs,
/// and ends by pushing every local and making `n - 1` additions, which leaves
/// two or three values; no instruction finds the stack too shallow, and every
/// local it names exists.
pub open spec fn program_shape(ops: Seq<(Opcode, Option<i32>)>, n: int, payloads: int) -> bool {
    let head = init_locals(n as nat).push((Opcode::LocalGet, Some(0i32)));
    let tail = local_gets(n as nat) + adds((n - 1) as nat);
    &&& 3 <= n <= 10
    &&& ops.len() >= head.len() + tail.len()
    &&& ops.take(head.len() as int) == head
    &&& ops.skip(ops.len() - tail.len()) == tail
    &&& payload_count(ops.subrange(head.len() as int, ops.len() - tail.len())) == payloads
    &&& forall|i: int| head.len() <= i < ops.len() - tail.len() ==> #[trigger] is_payload(ops[i].0)
        || ops[i].0 == Opcode::LocalGet || ops[i].0 == Opcode::I32Const
    &&& forall|i: int| 0 <= i < ops.len() ==> #[trigger] well_formed_op(ops[i].0, ops[i].1, n)
    &&& stack_height(ops) matches Some(h) && 2 <= h <= 3
}

proof fn lemma_push(ops: Seq<(Opcode, Option<i32>)>, x: (Opcode, Option<i32>))
    ensures
        render(ops.push(x)) == render(ops) + render_op(x.0, x.1),
        stack_height(ops.push(x)) == match stack_height(ops) {
            Some(h) => if h >= stack_req(x.0).0 { Some(h + stack_req(x.0).1) } else { None },
            None => None,
        },
        payload_count(ops.push(x)) == payload_count(ops) + if is_payload(x.0) { 1int } else { 0 },
        forall|k: int| #[trigger] occurrences(ops.push(x), k)
            == occurrences(ops, k) + if opcode_index(x.0) == k { 1int } else { 0 },
{
    assert(ops.push(x).drop_last() =~= ops);
}

/// How many of an opcode the start of a program holds at most: the
/// parameter's push, and a constant and a store per local.
spec fn occurrence_allowance(k: int) -> int {
    if k == 5 { 1 } else if k == 3 || k == 4 { 10 } else { 0 }
}

/// How many of an opcode a program holds at most after `payloads` payloads:
/// each adds at most two pushes of locals or constants, or one payload.
spec fn occurrence_cap(k: int, payloads: int) -> int {
    (if k == 3 || k == 5 { 2 * payloads } else { payloads }) + occurrence_allowance(k)
}

proof fn lemma_occurrences_bound(ops: Seq<(Opcode, Option<i32>)>, k: int)
    ensures
        0 <= occurrences(ops, k) <= ops.len(),
    decreases ops.len(),
{
    if ops.len() > 0 {
        lemma_occurrences_bound(ops.drop_last(), k);
    }
}

proof fn lemma_init_locals(n: nat, bound: int)
    requires
        n <= bound <= 10,
    ensures
        init_locals(n).len() == 2 * n,
        stack_height(init_locals(n)) == Some(0int),
        forall|i: int| 0 <= i < init_locals(n).len() ==> #[trigger] well_formed_op(init_locals(n)[i].0, init_locals(n)[i].1, bound),
        forall|k: int| #[trigger] occurrences(init_locals(n), k) <= if k == 3 || k == 4 { n as int } else { 0 },
    decreases n,
{
    if n > 0 {
        let k = (n - 1) as nat;
        lemma_init_locals(k, bound);
        let a = (Opcode::I32Const, Some(n as i32));
        let b = (Opcode::LocalSet, Some(n as i32));
        assert(init_locals(n) =~= init_locals(k).push(a).push(b));
        lemma_push(init_locals(k), a);
        lemma_push(init_locals(k).push(a), b);
    }
}

fn repeat_locals(n: i32) -> (res: String)
    requires
        0 <= n,
    ensures
        res@ == locals_decl(n as nat),
{
    let mut text = String::from_str("(local");
    let mut i: i32 = 0;
    while i < n
        invariant
            0 <= i <= n,
            text@ == "(local"@ + repeat(" i32"@, i as nat),
        decreases n - i,
    {
        text.append(" i32");
        proof {
            assert(repeat(" i32"@, (i + 1) as nat) == repeat(" i32"@, i as nat) + " i32"@);
        }
        i = i + 1;
    }
    text.append(")\n");
    text
}

/// Writes a random straight-line program: a random number of locals (3 to
/// 10), each set to its index; then `set_payload_num` payloads drawn with
/// weights 8:5:5 among local stores, adds and multiplies, each preceded by
/// the pushes it needs (a local, or with weight 1 in 11 a constant in
/// `-100..100`); then every local pushed and `n - 1` additions. A count of
/// payloads is also drawn from `100..=200`, and ignored.
pub fn generate_wat(rng: &mut Lcg64Xsh32, set_payload_num: i32) -> (res: WatBuilder)
    requires
        set_payload_num <= 1_073_741_817,
    ensures
        res.counts_match(),
        exists|n: int| #[trigger] program_shape(res.ops(), n, payloads_asked(set_payload_num))
            && res.wat@ == wat_prefix() + locals_decl(n as nat) + render(res.ops()) + wat_suffix(),
{
    let mut builder = WatBuilder::new();
    let num_locals = gen_range_i32(rng, 3, 10);
    let locals_string = repeat_locals(num_locals);
    builder.push_str(locals_string.as_str());
    let ghost n = num_locals as int;
    let ghost start = wat_prefix() + locals_decl(n as nat);
    proof {
        assert(render(builder.ops()) =~= Seq::<char>::empty());
        assert(builder.wat@ =~= start + render(builder.ops()));
        assert(builder.ops() =~= init_locals(0));
    }

    let mut i: i32 = 1;
    while i <= num_locals
        invariant
            1 <= i <= num_locals + 1,
            num_locals == n,
            3 <= n <= 10,
            builder.counts_match(),
            builder.wat@ == start + render(builder.ops()),
            builder.ops() == init_locals((i - 1) as nat),
        decreases num_locals + 1 - i,
    {
        proof {
            lemma_init_locals((i - 1) as nat, n);
            lemma_occurrences_bound(builder.ops(), opcode_index(Opcode::I32Const));
        }
        let ghost before = builder.ops();
        builder.add_opcode(Opcode::I32Const, Some(i));
        proof {
            lemma_push(before, (Opcode::I32Const, Some(i)));
            lemma_occurrences_bound(builder.ops(), opcode_index(Opcode::LocalSet));
        }
        let ghost middle = builder.ops();
        builder.add_opcode(Opcode::LocalSet, Some(i));
        proof {
            lemma_push(middle, (Opcode::LocalSet, Some(i)));
            assert(builder.wat@ =~= start + render(builder.ops()));
            assert(init_locals(i as nat) =~= init_locals((i - 1) as nat) + seq![(Opcode::I32Const, Some(i)), (Opcode::LocalSet, Some(i))]);
            assert(builder.ops() =~= init_locals(i as nat));
        }
        i = i + 1;
    }

    let _drawn_payloads = gen_range_i32(rng, 100, 200);
    let num_payloads = set_payload_num;

    let payload_choices = [Opcode::LocalSet, Opcode::I32Add, Opcode::I32Mul];
    let payload_weights = [8i32, 5, 5];
    proof {
        reveal_with_fuel(weight_sum, 4);
    }
    let payload_dist = weighted_index(payload_weights.as_slice());
    proof {
        assert(payload_choices@ =~= seq![Opcode::LocalSet, Opcode::I32Add, Opcode::I32Mul]);
    }
    let mut payloads: Vec<Opcode> = Vec::new();
    let mut p: i32 = 0;
    while p < num_payloads
        invariant
            0 <= p,
            p <= num_payloads || p == 0,
            payloads@.len() == p,
            weights_of(payload_dist).len() == 3,
            payload_choices@ == seq![Opcode::LocalSet, Opcode::I32Add, Opcode::I32Mul],
            forall|j: int| 0 <= j < payloads@.len() ==> #[trigger] is_payload(payloads@[j]),
        decreases num_payloads - p,
    {
        let choice = sample_index(&payload_dist, rng);
        let payload = payload_choices[choice];
        payloads.push(payload);
        p = p + 1;
    }

    let ghost head = init_locals(n as nat).push((Opcode::LocalGet, Some(0i32)));
    proof {
        lemma_init_locals(n as nat, n);
        lemma_occurrences_bound(builder.ops(), opcode_index(Opcode::LocalGet));
    }
    let ghost before_get = builder.ops();
    builder.add_opcode(Opcode::LocalGet, Some(0));
    let mut stack_depth: i32 = 1;
    proof {
        lemma_push(before_get, (Opcode::LocalGet, Some(0i32)));
        assert(before_get == init_locals(n as nat));
        assert forall|k: int| #[trigger] occurrences(builder.ops(), k) <= occurrence_cap(k, 0) by {}
        assert(builder.wat@ =~= start + render(builder.ops()));
        assert(builder.ops().take(head.len() as int) =~= head);
        assert(builder.ops().subrange(head.len() as int, builder.ops().len() as int) =~= Seq::<(Opcode, Option<i32>)>::empty());
        assert forall|k: int| 0 <= k < builder.ops().len() implies #[trigger] well_formed_op(builder.ops()[k].0, builder.ops()[k].1, n) by {
            if k < before_get.len() {
                assert(builder.ops()[k] == init_locals(n as nat)[k]);
            }
        }
    }

    let stack_increase_choices = [Opcode::LocalGet, Opcode::I32Const];
    let stack_increase_weights = [10i32, 1];
    proof {
        reveal_with_fuel(weight_sum, 3);
    }
    let stack_increase_dist = weighted_index(stack_increase_weights.as_slice());
    proof {
        assert(stack_increase_choices@ =~= seq![Opcode::LocalGet, Opcode::I32Const]);
    }

    let mut j: usize = 0;
    while j < payloads.len()
        invariant
            j <= payloads@.len(),
            payloads@.len() == if set_payload_num > 0 { set_payload_num as int } else { 0 },
            forall|q: int| 0 <= q < payloads@.len() ==> #[trigger] is_payload(payloads@[q]),
            num_locals == n,
            3 <= n <= 10,
            head == init_locals(n as nat).push((Opcode::LocalGet, Some(0i32))),
            head.len() == 2 * n + 1,
            weights_of(stack_increase_dist).len() == 2,
            stack_increase_choices@ == seq![Opcode::LocalGet, Opcode::I32Const],
            builder.counts_match(),
            builder.wat@ == start + render(builder.ops()),
            head.len() <= builder.ops().len(),
            forall|k: int| #[trigger] occurrences(builder.ops(), k) <= occurrence_cap(k, j as int),
            builder.ops().take(head.len() as int) == head,
            payload_count(builder.ops().subrange(head.len() as int, builder.ops().len() as int)) == j,
            forall|k: int| head.len() <= k < builder.ops().len() ==> #[trigger] is_payload(builder.ops()[k].0)
                || builder.ops()[k].0 == Opcode::LocalGet || builder.ops()[k].0 == Opcode::I32Const,
            forall|k: int| 0 <= k < builder.ops().len() ==> #[trigger] well_formed_op(builder.ops()[k].0, builder.ops()[k].1, n),
            stack_height(builder.ops()) == Some(stack_depth as int),
            0 <= stack_depth <= 1,
            set_payload_num <= 1_073_741_817,
        decreases payloads@.len() - j,
    {
        let payload = payloads[j];
        let (stack_req_n, stack_change) = opcode_stack_req(payload);
        let ghost payload_start = builder.ops().len();
        let ghost depth_start = stack_depth as int;
        while stack_depth < stack_req_n
            invariant
                num_locals == n,
                3 <= n <= 10,
                head.len() == 2 * n + 1,
                weights_of(stack_increase_dist).len() == 2,
                stack_increase_choices@ == seq![Opcode::LocalGet, Opcode::I32Const],
                j < 1_073_741_817,
                stack_req_n == stack_req(payload).0,
                is_payload(payload),
                builder.counts_match(),
                builder.wat@ == start + render(builder.ops()),
                builder.ops().len() == payload_start + (stack_depth - depth_start),
                depth_start <= stack_depth <= 2,
                0 <= depth_start <= 1,
                forall|k: int| #[trigger] occurrences(builder.ops(), k) <= occurrence_cap(k, j as int)
                    + if k == 3 || k == 5 { stack_depth - depth_start } else { 0 },
                head.len() <= payload_start,
                builder.ops().take(head.len() as int) == head,
                payload_count(builder.ops().subrange(head.len() as int, builder.ops().len() as int)) == j,
                forall|k: int| head.len() <= k < builder.ops().len() ==> #[trigger] is_payload(builder.ops()[k].0)
                    || builder.ops()[k].0 == Opcode::LocalGet || builder.ops()[k].0 == Opcode::I32Const,
                forall|k: int| 0 <= k < builder.ops().len() ==> #[trigger] well_formed_op(builder.ops()[k].0, builder.ops()[k].1, n),
                stack_height(builder.ops()) == Some(stack_depth as int),
            decreases stack_req_n - stack_depth,
        {
            let choice = sample_index(&stack_increase_dist, rng);
            let increase_op = stack_increase_choices[choice];
            let ghost before = builder.ops();
            let argument = match increase_op {
                Opcode::LocalGet => gen_range_i32(rng, 0, num_locals),
                _ => gen_range_i32(rng, -100, 99),
            };
            builder.add_opcode(increase_op, Some(argument));
            let (_increase_req, increase_amt) = opcode_stack_req(increase_op);
            stack_depth = stack_depth + increase_amt;
            proof {
                let x = (increase_op, Some(argument));
                lemma_push(before, x);
                assert(builder.wat@ =~= start + render(builder.ops()));
                assert(builder.ops().take(head.len() as int) =~= before.take(head.len() as int));
                assert(builder.ops().subrange(head.len() as int, builder.ops().len() as int)
                    =~= before.subrange(head.len() as int, before.len() as int).push(x));
                lemma_push(before.subrange(head.len() as int, before.len() as int), x);
            }
        }
        let payload_arg = if payload == Opcode::LocalSet {
            Some(gen_range_i32(rng, 0, num_locals))
        } else {
            None
        };
        let ghost before = builder.ops();
        builder.add_opcode(payload, payload_arg);
        stack_depth = stack_depth + stack_change;
        proof {
            let x = (payload, payload_arg);
            lemma_push(before, x);
            assert(builder.wat@ =~= start + render(builder.ops()));
            assert(builder.ops().take(head.len() as int) =~= before.take(head.len() as int));
            assert(builder.ops().subrange(head.len() as int, builder.ops().len() as int)
                =~= before.subrange(head.len() as int, before.len() as int).push(x));
            lemma_push(before.subrange(head.len() as int, before.len() as int), x);
        }
        j = j + 1;
    }
    let ghost mid_end: int = builder.ops().len() as int;
    let ghost mid_ops = builder.ops();
    let ghost depth = stack_depth as int;
    let ghost payload_total = payloads_asked(set_payload_num);

    let mut t: i32 = 0;
    while t < stack_depth - 1
        invariant
            t == 0,
            0 <= stack_depth <= 1,
            builder.ops() == mid_ops,
            builder.counts_match(),
            builder.wat@ == start + render(builder.ops()),
        decreases stack_depth - 1 - t,
    {
        builder.add_opcode(Opcode::I32Add, None);
        t = t + 1;
    }

    let mut g: i32 = 0;
    while g <= num_locals
        invariant
            0 <= g <= num_locals + 1,
            num_locals == n,
            3 <= n <= 10,
            0 <= depth <= 1,
            builder.counts_match(),
            builder.wat@ == start + render(builder.ops()),
            0 <= payload_total <= 1_073_741_817,
            forall|k: int| #[trigger] occurrences(builder.ops(), k) <= occurrence_cap(k, payload_total)
                + if k == 5 { g as int } else { 0 },
            builder.ops().len() == mid_end + g,
            mid_ops.len() == mid_end,
            builder.ops().take(mid_end) == mid_ops,
            builder.ops().subrange(mid_end, builder.ops().len() as int) == local_gets(n as nat).take(g as int),
            forall|k: int| 0 <= k < builder.ops().len() ==> #[trigger] well_formed_op(builder.ops()[k].0, builder.ops()[k].1, n),
            stack_height(builder.ops()) == Some(depth + g),
        decreases num_locals + 1 - g,
    {
        let ghost before = builder.ops();
        builder.add_opcode(Opcode::LocalGet, Some(g));
        proof {
            let x = (Opcode::LocalGet, Some(g));
            lemma_push(before, x);
            assert(builder.wat@ =~= start + render(builder.ops()));
            assert(builder.ops().take(mid_end) =~= before.take(mid_end));
            assert(builder.ops().subrange(mid_end, builder.ops().len() as int) =~= local_gets(n as nat).take(g + 1));
        }
        g = g + 1;
    }

    let mut a: i32 = 0;
    while a < num_locals - 1
        invariant
            0 <= a <= num_locals - 1,
            num_locals == n,
            3 <= n <= 10,
            0 <= depth <= 1,
            builder.counts_match(),
            builder.wat@ == start + render(builder.ops()),
            0 <= payload_total <= 1_073_741_817,
            forall|k: int| #[trigger] occurrences(builder.ops(), k) <= occurrence_cap(k, payload_total)
                + if k == 5 { n + 1 } else if k == 0 { a as int } else { 0 },
            builder.ops().len() == mid_end + n + 1 + a,
            mid_ops.len() == mid_end,
            builder.ops().take(mid_end) == mid_ops,
            builder.ops().subrange(mid_end, builder.ops().len() as int) == local_gets(n as nat) + adds(a as nat),
            forall|k: int| 0 <= k < builder.ops().len() ==> #[trigger] well_formed_op(builder.ops()[k].0, builder.ops()[k].1, n),
            stack_height(builder.ops()) == Some(depth + n + 1 - a),
        decreases num_locals - 1 - a,
    {
        let ghost before = builder.ops();
        proof {
            assert(occurrences(before, opcode_index(Opcode::I32Add)) <= payload_total + a);
        }
        builder.add_opcode(Opcode::I32Add, None);
        proof {
            let x = (Opcode::I32Add, None::<i32>);
            lemma_push(before, x);
            assert(builder.wat@ =~= start + render(builder.ops()));
            assert(builder.ops().take(mid_end) =~= before.take(mid_end));
            assert(builder.ops().subrange(mid_end, builder.ops().len() as int)
                =~= before.subrange(mid_end, before.len() as int).push(x));
            assert(builder.ops().subrange(mid_end, builder.ops().len() as int) =~= local_gets(n as nat) + adds((a + 1) as nat));
        }
        a = a + 1;
    }
    proof {
        let ops = builder.ops();
        let tail = local_gets(n as nat) + adds((n - 1) as nat);
        assert(ops.skip(ops.len() - tail.len()) =~= ops.subrange(mid_end, ops.len() as int));
        assert(ops.take(head.len() as int) =~= mid_ops.take(head.len() as int));
        assert(ops.subrange(head.len() as int, ops.len() - tail.len()) =~= mid_ops.subrange(head.len() as int, mid_end));
        assert forall|i: int| head.len() <= i < ops.len() - tail.len() implies #[trigger] is_payload(ops[i].0)
            || ops[i].0 == Opcode::LocalGet || ops[i].0 == Opcode::I32Const by {
            assert(ops[i] == ops.take(mid_end)[i]);
        }
        assert(program_shape(ops, n, payload_total));
    }
    builder.finish_wat();
    proof {
        assert(builder.wat@ =~= wat_prefix() + locals_decl(n as nat) + render(builder.ops()) + wat_suffix());
    }
    builder
}

} // verus!
