//! Fixed-size byte words used throughout the EVM interface.

use vstd::prelude::*;
use vstd::string::StringSliceAdditionalSpecFns;

verus! {

/// The lowercase hexadecimal digit for a nibble.
pub open spec fn hex_digit(n: int) -> char {
    if n < 10 {
        (48 + n) as char
    } else {
        (87 + n) as char
    }
}

/// Lowercase hexadecimal encoding, high nibble first.
pub open spec fn hex_lower(s: Seq<u8>) -> Seq<char>
    decreases s.len(),
{
    if s.len() == 0 {
        Seq::empty()
    } else {
        seq![hex_digit(s[0] as int / 16), hex_digit(s[0] as int % 16)] + hex_lower(s.drop_first())
    }
}

/// Big-endian encoding of `n` into exactly `len` bytes (higher bytes are dropped).
pub open spec fn be_bytes(n: nat, len: nat) -> Seq<u8>
    decreases len,
{
    if len == 0 {
        Seq::empty()
    } else {
        be_bytes(n / 256, (len - 1) as nat).push((n % 256) as u8)
    }
}

/// `hex::encode`: lowercase hexadecimal, two digits per byte, high nibble first.
#[verifier::external_body]
pub fn hex_encode(data: &[u8]) -> (res: String)
    ensures
        res@ == hex_lower(data@),
{
    hex::encode(data)
}

/// The value of a hexadecimal digit, in either case.
pub open spec fn hex_value(b: u8) -> Option<u8> {
    if 48 <= b <= 57 {
        Some((b - 48) as u8)
    } else if 97 <= b <= 102 {
        Some((b - 87) as u8)
    } else if 65 <= b <= 70 {
        Some((b - 55) as u8)
    } else {
        None
    }
}

/// An even number of hexadecimal digits.
pub open spec fn hex_valid(s: Seq<u8>) -> bool {
    &&& s.len() % 2 == 0
    &&& forall|i: int| 0 <= i < s.len() ==> #[trigger] hex_value(s[i]) is Some
}

/// The bytes that pairs of hexadecimal digits spell, high nibble first.
pub open spec fn hex_bytes(s: Seq<u8>) -> Seq<u8> {
    Seq::new(s.len() / 2, |i: int| (hex_value(s[2 * i])->0 * 16 + hex_value(s[2 * i + 1])->0) as u8)
}

/// `hex::decode` of a string's bytes: the bytes its digit pairs spell, where
/// it is an even number of digits of either case.
#[verifier::external_body]
pub fn hex_decode(text: &str) -> (res: Option<Vec<u8>>)
    ensures
        res is Some <==> hex_valid(text.spec_bytes()),
        res matches Some(v) ==> v@ == hex_bytes(text.spec_bytes()),
{
    hex::decode(text).ok()
}

/// A 32-byte EVM word.
#[derive(Clone, Copy, Debug, Eq, Hash, Default)]
pub struct Bytes32(pub [u8; 32]);

/// A 20-byte EVM address.
#[derive(Clone, Copy, Debug, Eq, Hash, Default)]
pub struct Bytes20(pub [u8; 20]);

fn bytes_equal<const N: usize>(a: &[u8; N], b: &[u8; N]) -> (res: bool)
    ensures
        res == (a@ == b@),
{
    let mut i: usize = 0;
    while i < N
        invariant
            i <= N,
            a@.len() == N,
            b@.len() == N,
            forall|j: int| 0 <= j < i ==> a@[j] == b@[j],
        decreases N - i,
    {
        if a[i] != b[i] {
            return false;
        }
        i = i + 1;
    }
    proof {
        assert(a@ =~= b@);
    }
    true
}

impl PartialEq for Bytes32 {
    fn eq(&self, other: &Self) -> (res: bool) {
        let res = bytes_equal(&self.0, &other.0);
        proof {
            broadcast use vstd::array::axiom_array_ext_equal;
            if res {
                assert(self.0 =~= other.0);
            }
        }
        res
    }
}

impl vstd::std_specs::cmp::PartialEqSpecImpl for Bytes32 {
    open spec fn obeys_eq_spec() -> bool {
        true
    }

    open spec fn eq_spec(&self, other: &Self) -> bool {
        *self == *other
    }
}

impl PartialEq for Bytes20 {
    fn eq(&self, other: &Self) -> (res: bool) {
        let res = bytes_equal(&self.0, &other.0);
        proof {
            broadcast use vstd::array::axiom_array_ext_equal;
            if res {
                assert(self.0 =~= other.0);
            }
        }
        res
    }
}

impl vstd::std_specs::cmp::PartialEqSpecImpl for Bytes20 {
    open spec fn obeys_eq_spec() -> bool {
        true
    }

    open spec fn eq_spec(&self, other: &Self) -> bool {
        *self == *other
    }
}

/// Writes `x` big-endian into the last `width` bytes of `b`, leaving the rest as is.
fn write_be_tail<const N: usize>(b: &mut [u8; N], x: u64, width: usize)
    requires
        width <= 8,
        width <= N,
    ensures
        final(b)@.len() == N,
        final(b)@.subrange(0, N - width) == old(b)@.subrange(0, N - width),
        final(b)@.subrange(N - width, N as int) == be_bytes(x as nat, width as nat),
{
    let ghost start = old(b)@;
    let mut v: u64 = x;
    let mut i: usize = 0;
    proof {
        assert(pow256(0) == 1);
        assert(b@.subrange(N as int, N as int) =~= be_low(x as nat, 0));
    }
    while i < width
        invariant
            i <= width,
            width <= 8,
            width <= N,
            b@.len() == N,
            b@.subrange(0, N - width) == start.subrange(0, N - width),
            v as nat == (x as nat) / pow256(i as nat),
            b@.subrange(N - i, N as int) == be_low(x as nat, i as nat),
        decreases width - i,
    {
        let byte: u8 = (v % 256) as u8;
        b[N - 1 - i] = byte;
        proof {
            lemma_pow256_step(i as nat);
            lemma_div_div(x as nat, pow256(i as nat), 256);
            assert(b@.subrange(N - (i + 1), N as int) =~= seq![byte] + b@.subrange(N - i, N as int));
            lemma_be_low_step(x as nat, i as nat);
        }
        v = v / 256;
        i = i + 1;
    }
    proof {
        lemma_be_low_is_be_bytes(x as nat, width as nat);
    }
}

pub open spec fn pow256(k: nat) -> nat
    decreases k,
{
    if k == 0 { 1 } else { 256 * pow256((k - 1) as nat) }
}

/// The low `k` bytes of `n`, big-endian.
pub open spec fn be_low(n: nat, k: nat) -> Seq<u8>
    decreases k,
{
    if k == 0 {
        Seq::empty()
    } else {
        seq![((n / pow256((k - 1) as nat)) % 256) as u8] + be_low(n, (k - 1) as nat)
    }
}

proof fn lemma_pow256_step(k: nat)
    ensures
        pow256(k + 1) == 256 * pow256(k),
        pow256(k) > 0,
    decreases k,
{
    if k > 0 {
        lemma_pow256_step((k - 1) as nat);
    }
}

proof fn lemma_div_div(x: nat, a: nat, b: nat)
    requires
        a > 0,
        b > 0,
    ensures
        x / a / b == x / (a * b),
{
    vstd::arithmetic::div_mod::lemma_div_denominator(x as int, a as int, b as int);
}

proof fn lemma_be_low_step(x: nat, i: nat)
    ensures
        be_low(x, i + 1) == seq![((x / pow256(i)) % 256) as u8] + be_low(x, i),
{
}

proof fn lemma_be_low_is_be_bytes(n: nat, k: nat)
    ensures
        be_low(n, k) == be_bytes(n, k),
    decreases k,
{
    if k > 0 {
        lemma_pow256_step((k - 1) as nat);
        lemma_be_low_shift(n, (k - 1) as nat);
        lemma_be_low_is_be_bytes(n / 256, (k - 1) as nat);
        assert(be_low(n, k) =~= be_low(n / 256, (k - 1) as nat).push((n % 256) as u8));
    }
}

/// be_low(n, k+1) == be_low(n / 256, k).push(n % 256)
proof fn lemma_be_low_shift(n: nat, k: nat)
    ensures
        be_low(n, k + 1) == be_low(n / 256, k).push((n % 256) as u8),
    decreases k,
{
    if k == 0 {
        assert(pow256(0) == 1);
        assert(be_low(n, 0) =~= Seq::<u8>::empty());
        assert(n / 1 == n);
        assert(be_low(n, 1) =~= seq![((n / 1) % 256) as u8]);
        assert(be_low(n / 256, 0).push((n % 256) as u8) =~= seq![(n % 256) as u8]);
    } else {
        lemma_be_low_shift(n, (k - 1) as nat);
        lemma_pow256_step((k - 1) as nat);
        lemma_div_div(n, 256, pow256((k - 1) as nat));
        assert(n / 256 / pow256((k - 1) as nat) == n / pow256(k));
        assert(be_low(n, k + 1) =~= seq![((n / pow256(k)) % 256) as u8] + be_low(n, k));
        assert(be_low(n / 256, k) =~= seq![((n / 256 / pow256((k - 1) as nat)) % 256) as u8]
            + be_low(n / 256, (k - 1) as nat));
    }
}

/// The all-zero word, which is `Bytes32::default()`.
pub open spec fn zero_word() -> Bytes32 {
    choose|b: Bytes32| b.0@ == Seq::new(32, |i: int| 0u8)
}

impl Bytes32 {
    /// The all-zero word.
    pub fn zero() -> (res: Bytes32)
        ensures
            res == zero_word(),
            res.0@ == Seq::new(32, |i: int| 0u8),
    {
        let res = Bytes32([0u8; 32]);
        proof {
            broadcast use vstd::array::axiom_array_ext_equal;
            assert(res.0@ =~= Seq::new(32, |i: int| 0u8));
            let c = zero_word();
            assert(c.0 =~= res.0);
        }
        res
    }

    /// The word as a sequence of bytes.
    pub open spec fn bytes(self) -> Seq<u8> {
        self.0@
    }

    /// Whether every byte is zero, i.e. the word equals `Bytes32::default()`.
    pub fn is_zero(&self) -> (res: bool)
        ensures
            res == (forall|i: int| 0 <= i < 32 ==> self.0@[i] == 0u8),
    {
        let mut i: usize = 0;
        while i < 32
            invariant
                i <= 32,
                forall|j: int| 0 <= j < i ==> self.0@[j] == 0u8,
            decreases 32 - i,
        {
            if self.0[i] != 0 {
                return false;
            }
            i = i + 1;
        }
        true
    }

    /// The word's lowercase hexadecimal rendering (64 digits).
    pub fn to_hex(&self) -> (res: String)
        ensures
            res@ == hex_lower(self.0@),
    {
        hex_encode(self.0.as_slice())
    }
}

/// The big-endian bytes of a `u32`.
pub fn be_u32_bytes(x: u32) -> (res: Vec<u8>)
    ensures
        res@ == be_bytes(x as nat, 4),
{
    let b3 = (x % 256) as u8;
    let y1 = x / 256;
    let b2 = (y1 % 256) as u8;
    let y2 = y1 / 256;
    let b1 = (y2 % 256) as u8;
    let y3 = y2 / 256;
    let b0 = (y3 % 256) as u8;
    let res: Vec<u8> = vec![b0, b1, b2, b3];
    proof {
        reveal_with_fuel(be_bytes, 5);
        assert(res@ =~= be_bytes(x as nat, 4));
    }
    res
}

impl Bytes20 {
    /// The address's lowercase hexadecimal rendering (40 digits).
    pub fn to_hex(&self) -> (res: String)
        ensures
            res@ == hex_lower(self.0@),
    {
        hex_encode(self.0.as_slice())
    }
}

/// A big-endian encoding has the length asked for.
pub proof fn lemma_be_bytes_len(n: nat, len: nat)
    ensures
        be_bytes(n, len).len() == len,
    decreases len,
{
    if len > 0 {
        lemma_be_bytes_len(n / 256, (len - 1) as nat);
    }
}

/// `n` zero bytes followed by the big-endian bytes of `x` in `width` bytes.
pub open spec fn padded_be(x: nat, n: nat, width: nat) -> Seq<u8> {
    Seq::new((n - width) as nat, |i: int| 0u8) + be_bytes(x, width)
}

pub fn word32_from(x: u64, width: usize) -> (res: Bytes32)
    requires
        width <= 8,
    ensures
        res.0@ == padded_be(x as nat, 32, width as nat),
{
    let mut b = [0u8; 32];
    let ghost z = b@;
    write_be_tail(&mut b, x, width);
    proof {
        assert(z.subrange(0, 32 - width) =~= Seq::new((32 - width) as nat, |i: int| 0u8));
        assert(b@ =~= b@.subrange(0, 32 - width) + b@.subrange(32 - width, 32));
    }
    Bytes32(b)
}

pub fn word20_from(x: u64, width: usize) -> (res: Bytes20)
    requires
        width <= 8,
    ensures
        res.0@ == padded_be(x as nat, 20, width as nat),
{
    let mut b = [0u8; 20];
    let ghost z = b@;
    write_be_tail(&mut b, x, width);
    proof {
        assert(z.subrange(0, 20 - width) =~= Seq::new((20 - width) as nat, |i: int| 0u8));
        assert(b@ =~= b@.subrange(0, 20 - width) + b@.subrange(20 - width, 20));
    }
    Bytes20(b)
}

impl From<u64> for Bytes32 {
    /// The number, big-endian, in the last eight bytes.
    fn from(x: u64) -> (res: Self) {
        let res = word32_from(x, 8);
        proof {
            broadcast use vstd::array::axiom_array_ext_equal;
            assert(res.0@ == padded_be(x as nat, 32, 8));
            let c = choose|b: Bytes32| b.0@ == padded_be(x as nat, 32, 8);
            assert(c.0@ == res.0@);
            assert(c.0 =~= res.0);
        }
        res
    }
}

impl vstd::std_specs::convert::FromSpecImpl<u64> for Bytes32 {
    open spec fn obeys_from_spec() -> bool {
        true
    }

    open spec fn from_spec(v: u64) -> Bytes32 {
        choose|b: Bytes32| b.0@ == padded_be(v as nat, 32, 8)
    }
}

impl From<u32> for Bytes32 {
    /// The number, big-endian, in the last four bytes.
    fn from(x: u32) -> (res: Self) {
        let res = word32_from(x as u64, 4);
        proof {
            broadcast use vstd::array::axiom_array_ext_equal;
            assert(res.0@ == padded_be(x as nat, 32, 4));
            let c = choose|b: Bytes32| b.0@ == padded_be(x as nat, 32, 4);
            assert(c.0@ == res.0@);
            assert(c.0 =~= res.0);
        }
        res
    }
}

impl vstd::std_specs::convert::FromSpecImpl<u32> for Bytes32 {
    open spec fn obeys_from_spec() -> bool {
        true
    }

    open spec fn from_spec(v: u32) -> Bytes32 {
        choose|b: Bytes32| b.0@ == padded_be(v as nat, 32, 4)
    }
}

impl From<u32> for Bytes20 {
    /// The number, big-endian, in the last four bytes.
    fn from(x: u32) -> (res: Self) {
        let res = word20_from(x as u64, 4);
        proof {
            broadcast use vstd::array::axiom_array_ext_equal;
            assert(res.0@ == padded_be(x as nat, 20, 4));
            let c = choose|b: Bytes20| b.0@ == padded_be(x as nat, 20, 4);
            assert(c.0@ == res.0@);
            assert(c.0 =~= res.0);
        }
        res
    }
}

impl vstd::std_specs::convert::FromSpecImpl<u32> for Bytes20 {
    open spec fn obeys_from_spec() -> bool {
        true
    }

    open spec fn from_spec(v: u32) -> Bytes20 {
        choose|b: Bytes20| b.0@ == padded_be(v as nat, 20, 4)
    }
}

} // verus!
