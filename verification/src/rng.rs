//! A PCG random number generator (64-bit linear congruential state, 32-bit
//! output by xorshift and random rotation), matching the gas pricer's
//! WebAssembly implementation.

use vstd::prelude::*;

verus! {

/// The multiplier of the linear congruential step.
pub const MUL_CONST: u64 = 6364136223846793005;

/// One step of the generator: `state * MUL_CONST + inc`, modulo 2^64.
pub open spec fn lcg_step(state: u64, inc: u64) -> u64 {
    ((state as int * MUL_CONST as int + inc as int) % 0x1_0000_0000_0000_0000int) as u64
}

/// The state after `n` steps.
pub open spec fn lcg_iter(state: u64, inc: u64, n: nat) -> u64
    decreases n,
{
    if n == 0 { state } else { lcg_step(lcg_iter(state, inc, (n - 1) as nat), inc) }
}

/// `x` rotated right by `r` bits, for `r < 32`.
pub open spec fn rotr32(x: u32, r: u32) -> u32 {
    if r == 0 { x } else { (x >> r) | (x << ((32 - r) as u32)) }
}

/// The 32 bits the generator outputs for a state: the state xorshifted by 18,
/// bits 27 to 58, rotated right by the state's top five bits.
pub open spec fn pcg_output(state: u64) -> u32 {
    rotr32((((state >> 18u64) ^ state) >> 27u64) as u32, (state >> 59u64) as u32)
}

/// The generator.
#[derive(Clone, Copy, Debug, PartialEq, Eq)]
pub struct Lcg64XshRR32 {
    pub state: u64,
    pub inc: u64,
}

proof fn lemma_step(state: u64, inc: u64)
    ensures
        state.wrapping_mul(MUL_CONST).wrapping_add(inc) == lcg_step(state, inc),
{
    let m: int = 0x1_0000_0000_0000_0000int;
    let p = state as int * MUL_CONST as int;
    assert(state.wrapping_mul(MUL_CONST) == (p % m) as u64) by (nonlinear_arith)
        requires p == state as int * MUL_CONST as int, m == 0x1_0000_0000_0000_0000int {}
    vstd::arithmetic::div_mod::lemma_add_mod_noop(p, inc as int, m);
    vstd::arithmetic::div_mod::lemma_mod_twice(inc as int, m);
    vstd::arithmetic::div_mod::lemma_small_mod(inc as nat, m as nat);
}

impl Lcg64XshRR32 {
    /// A generator seeded with `state + inc` (modulo 2^64) and advanced once.
    pub fn new(state: u64, inc: u64) -> (res: Self)
        ensures
            res.inc == inc,
            res.state == lcg_step(((state as int + inc as int) % 0x1_0000_0000_0000_0000int) as u64, inc),
    {
        let initial_state = state.wrapping_add(inc);
        let mut generator = Lcg64XshRR32 { state: initial_state, inc };
        generator.advance();
        generator
    }

    /// Steps the state.
    pub fn advance(&mut self)
        ensures
            final(self).inc == old(self).inc,
            final(self).state == lcg_step(old(self).state, old(self).inc),
    {
        proof {
            lemma_step(self.state, self.inc);
        }
        self.state = self.state.wrapping_mul(MUL_CONST).wrapping_add(self.inc);
    }

    /// The 32-bit output for the current state.
    pub fn output(&self) -> (res: u32)
        ensures
            res == pcg_output(self.state),
    {
        let state = self.state;
        // the top five bits choose the rotation
        let rot_amount = (state >> 59u64) as u32;
        // xorshift by 18, then keep 32 of the bits (27 dropped)
        let xorshifted = (((state >> 18u64) ^ state) >> 27u64) as u32;
        assert(rot_amount < 32) by (bit_vector)
            requires rot_amount == (state >> 59u64) as u32;
        if rot_amount == 0 {
            xorshifted
        } else {
            (xorshifted >> rot_amount) | (xorshifted << (32 - rot_amount))
        }
    }
}

impl Default for Lcg64XshRR32 {
    /// The generator with the reference seed and stream.
    fn default() -> (res: Self)
        ensures
            res == Lcg64XshRR32::new_spec(0xcafef00dd15ea5e5, 0x14057b7ef767814f),
    {
        Self::new(0xcafef00dd15ea5e5, 0x14057b7ef767814f)
    }
}

impl Lcg64XshRR32 {
    /// The generator `new` builds.
    pub open spec fn new_spec(state: u64, inc: u64) -> Self {
        Lcg64XshRR32 {
            state: lcg_step(((state as int + inc as int) % 0x1_0000_0000_0000_0000int) as u64, inc),
            inc,
        }
    }
}

/// The state of the default generator after `loops` more steps.
pub fn myrng(loops: i32) -> (res: u64)
    ensures
        res == lcg_iter(
            Lcg64XshRR32::new_spec(0xcafef00dd15ea5e5, 0x14057b7ef767814f).state,
            0x14057b7ef767814f,
            if loops > 0 { loops as nat } else { 0 },
        ),
{
    let mut generator = Lcg64XshRR32::default();
    let ghost start = generator.state;
    let mut i: i32 = 0;
    while i < loops
        invariant
            0 <= i,
            loops > 0 ==> i <= loops,
            loops <= 0 ==> i == 0,
            generator.inc == 0x14057b7ef767814f,
            generator.state == lcg_iter(start, generator.inc, i as nat),
        decreases loops - i,
    {
        generator.advance();
        i = i + 1;
    }
    generator.state
}

} // verus!
