use vstd::arithmetic::power::pow;
use vstd::arithmetic::power2::{lemma_pow2_adds, pow2};
use vstd::prelude::*;

verus! {

/// Numeric value of a big-endian byte string.
pub open spec fn be_value(b: Seq<u8>) -> nat
    decreases b.len(),
{
    if b.len() == 0 {
        0
    } else {
        be_value(b.drop_last()) * 256 + b.last() as nat
    }
}

/// Numeric value of a sequence of base-16 digit values, most significant first.
pub open spec fn nibbles_value(d: Seq<u8>) -> nat
    decreases d.len(),
{
    if d.len() == 0 {
        0
    } else {
        nibbles_value(d.drop_last()) * 16 + d.last() as nat
    }
}

/// Digit `i` (from the left) of the field prime written with 64 hex digits:
/// 0x0800000000000011000000000000000000000000000000000000000000000001.
pub open spec fn prime_nibble(i: int) -> u8 {
    if i == 1 {
        8
    } else if i == 14 || i == 15 || i == 63 {
        1
    } else {
        0
    }
}

pub open spec fn prime_nibbles() -> Seq<u8> {
    Seq::new(64, |i: int| prime_nibble(i))
}

/// The order of the scalar field, written by its hex digits;
/// `lemma_field_prime_value` shows that it is 2^251 + 17 * 2^192 + 1.
pub open spec fn field_prime() -> nat {
    nibbles_value(prime_nibbles())
}

proof fn lemma_append_zeros(d: Seq<u8>, k: nat)
    ensures
        nibbles_value(d + Seq::new(k, |i: int| 0u8)) == nibbles_value(d) * pow(16, k),
    decreases k,
{
    reveal(pow);
    if k == 0 {
        assert(d + Seq::new(0, |i: int| 0u8) =~= d);
    } else {
        let prev = (k - 1) as nat;
        lemma_append_zeros(d, prev);
        let s = d + Seq::new(k, |i: int| 0u8);
        assert(s.drop_last() =~= d + Seq::new(prev, |i: int| 0u8));
        assert(s.last() == 0u8);
        assert(nibbles_value(s) == nibbles_value(s.drop_last()) * 16);
        let v = nibbles_value(d);
        let q = pow(16, prev);
        assert(pow(16, k) == 16 * q);
        assert(v * q * 16 == v * (16 * q)) by (nonlinear_arith);
    }
}

proof fn lemma_pow16(k: nat)
    ensures
        pow(16, k) == pow2(4 * k),
{
    reveal_with_fuel(pow, 5);
    assert(pow(2, 4) == 16);
    vstd::arithmetic::power::lemma_pow_multiplies(2, 4, k);
    vstd::arithmetic::power::lemma_pow_positive(2, 4 * k);
}

/// The field prime is 2^251 + 17 * 2^192 + 1.
pub proof fn lemma_field_prime_value()
    ensures
        field_prime() == pow2(251) + 17 * pow2(192) + 1,
{
    let a = seq![0u8, 8u8];
    let b = a + Seq::new(12, |i: int| 0u8);
    let c = b.push(1u8).push(1u8);
    let d = c + Seq::new(47, |i: int| 0u8);
    let e = d.push(1u8);
    assert(e =~= prime_nibbles());
    assert(a.drop_last() =~= seq![0u8]);
    assert(seq![0u8].drop_last() =~= Seq::<u8>::empty());
    reveal_with_fuel(nibbles_value, 3);
    assert(nibbles_value(a) == 8);
    lemma_append_zeros(a, 12);
    assert(c.drop_last() =~= b.push(1u8));
    assert(b.push(1u8).drop_last() =~= b);
    lemma_append_zeros(c, 47);
    assert(e.drop_last() =~= d);
    lemma_pow16(12);
    lemma_pow16(47);
    let x = pow2(188);
    let y = pow2(48);
    assert(nibbles_value(e) == (((8 * y * 16 + 1) * 16 + 1) * x) * 16 + 1);
    assert((((8 * y * 16 + 1) * 16 + 1) * x) * 16 + 1 == 8 * y * 256 * x * 16 + 17 * (x * 16)
        + 1) by (nonlinear_arith);
    reveal_with_fuel(pow, 9);
    assert(pow2(3) == 8 && pow2(8) == 256 && pow2(4) == 16);
    lemma_pow2_adds(3, 48);
    lemma_pow2_adds(51, 8);
    lemma_pow2_adds(59, 188);
    lemma_pow2_adds(247, 4);
    lemma_pow2_adds(188, 4);
}

/// The field element that `Felt::from` gives for a signed integer.
pub open spec fn signed_to_field(x: int) -> nat {
    if x >= 0 {
        x as nat
    } else {
        (field_prime() + x) as nat
    }
}

/// A field element, held as its 32-byte big-endian encoding.
#[derive(Clone, Copy, Debug, PartialEq, Eq)]
pub struct Scalar {
    bytes: [u8; 32],
}

impl Scalar {
    pub closed spec fn value(&self) -> nat {
        be_value(self.bytes@)
    }

    pub closed spec fn to_bytes_spec(&self) -> Seq<u8> {
        self.bytes@
    }

    /// The encoding is canonical: the value lies below the field prime.
    pub open spec fn wf(&self) -> bool {
        self.value() < field_prime()
    }

    /// The field element of a signed integer; a negative one wraps around the prime.
    pub fn from_i64(x: i64) -> (r: Scalar)
        ensures
            r.wf(),
            r.value() == signed_to_field(x as int),
    {
        Scalar { bytes: felt_bytes_from_i64(x) }
    }

    /// The field element of 32 big-endian bytes, reduced modulo the prime.
    pub fn from_bytes_be(b: [u8; 32]) -> (r: Scalar)
        ensures
            r.wf(),
            r.value() == be_value(b@) % field_prime(),
    {
        Scalar { bytes: felt_reduce_bytes(b) }
    }

    pub(crate) fn from_encoding(bytes: [u8; 32]) -> (r: Scalar)
        ensures
            r.to_bytes_spec() == bytes@,
            r.value() == be_value(bytes@),
    {
        Scalar { bytes }
    }

    pub fn to_bytes_be(&self) -> (r: [u8; 32])
        ensures
            r@ == self.to_bytes_spec(),
            be_value(r@) == self.value(),
    {
        self.bytes
    }
}

/// Two scalars with one encoding have one value.
pub proof fn lemma_value_of_encoding(a: Scalar, b: Scalar)
    requires
        a.to_bytes_spec() == b.to_bytes_spec(),
    ensures
        a.value() == b.value(),
{
}

/// Relies on `From<i64> for Felt`: the absolute value, negated in the field when
/// the input is negative; and on `Felt::to_bytes_be` for the canonical encoding.
#[verifier::external_body]
fn felt_bytes_from_i64(x: i64) -> (r: [u8; 32])
    ensures
        be_value(r@) < field_prime(),
        be_value(r@) == signed_to_field(x as int),
{
    starknet::core::types::Felt::from(x).to_bytes_be()
}

/// Relies on `Felt::from_bytes_be`, which reduces 32 big-endian bytes modulo the
/// prime, and on `Felt::to_bytes_be` for the canonical encoding.
#[verifier::external_body]
fn felt_reduce_bytes(b: [u8; 32]) -> (r: [u8; 32])
    ensures
        be_value(r@) == be_value(b@) % field_prime(),
{
    starknet::core::types::Felt::from_bytes_be(&b).to_bytes_be()
}

} // verus!
