use crate::scalar::{field_prime, nibbles_value, prime_nibble, prime_nibbles, Scalar};
use vstd::prelude::*;
use vstd::string::StringSliceAdditionalSpecFns;

verus! {

pub open spec fn is_hex_byte(b: u8) -> bool {
    (48 <= b <= 57) || (97 <= b <= 102) || (65 <= b <= 70)
}

/// Value of one hex digit, in either case.
pub open spec fn hex_digit(b: u8) -> u8 {
    if 48 <= b <= 57 {
        (b - 48) as u8
    } else if 97 <= b <= 102 {
        (b - 87) as u8
    } else {
        (b - 55) as u8
    }
}

/// Numeric value of a string of hex digits, most significant first.
pub open spec fn hex_value(d: Seq<u8>) -> nat
    decreases d.len(),
{
    if d.len() == 0 {
        0
    } else {
        hex_value(d.drop_last()) * 16 + hex_digit(d.last()) as nat
    }
}

/// The digits of a hex literal: a leading `0x` is dropped when digits follow it.
pub open spec fn hex_body(s: Seq<u8>) -> Seq<u8> {
    if s.len() > 2 && s[0] == 48 && s[1] == 120 {
        s.subrange(2, s.len() as int)
    } else {
        s
    }
}

/// One to 64 hex digits, after an optional `0x`.
pub open spec fn is_hex_literal(s: Seq<u8>) -> bool {
    let d = hex_body(s);
    &&& 0 < d.len() <= 64
    &&& forall|i: int| 0 <= i < d.len() ==> is_hex_byte(#[trigger] d[i])
}

/// A hex literal whose value is a field element: it lies below the prime.
pub open spec fn is_scalar_hex(s: Seq<u8>) -> bool {
    is_hex_literal(s) && hex_value(hex_body(s)) < field_prime()
}

/// Relies on `Felt::from_hex`: it accepts exactly one to 64 hex digits after an
/// optional `0x`, and reduces their value modulo the prime; and on
/// `Felt::to_bytes_be` for the canonical encoding.
#[verifier::external_body]
fn felt_from_hex(s: &str) -> (r: Option<[u8; 32]>)
    ensures
        r is Some <==> is_hex_literal(s.spec_bytes()),
        r is Some ==> crate::scalar::be_value(r->0@) == hex_value(hex_body(s.spec_bytes()))
            % field_prime(),
{
    match starknet::core::types::Felt::from_hex(s) {
        Ok(f) => Some(f.to_bytes_be()),
        Err(_) => None,
    }
}

/// The field element written as a hex literal, or `None` where the text is not
/// one to 64 hex digits after an optional `0x`, or its value reaches the prime.
pub fn parse_scalar(s: &str) -> (r: Option<Scalar>)
    ensures
        r is Some <==> is_scalar_hex(s.spec_bytes()),
        r is Some ==> r->0.wf() && r->0.value() == hex_value(hex_body(s.spec_bytes())),
{
    match felt_from_hex(s) {
        None => None,
        Some(bytes) => {
            let b = s.as_bytes();
            let d = if b.len() > 2 && b[0] == 48 && b[1] == 120 {
                vstd::slice::slice_subrange(b, 2, b.len())
            } else {
                b
            };
            assert(d@ =~= hex_body(s.spec_bytes()));
            if below_field_prime(d) {
                proof {
                    vstd::arithmetic::div_mod::lemma_small_mod(
                        hex_value(d@),
                        field_prime(),
                    );
                }
                Some(Scalar::from_encoding(bytes))
            } else {
                None
            }
        },
    }
}

proof fn lemma_digit_step(a: nat, p: nat, x: nat, e: nat)
    requires
        x < 16,
        e < 16,
    ensures
        a < p ==> a * 16 + x < p * 16 + e,
        a > p ==> a * 16 + x > p * 16 + e,
        a == p ==> (a * 16 + x < p * 16 + e <==> x < e),
        a == p ==> (a * 16 + x == p * 16 + e <==> x == e),
{
}

proof fn lemma_prefix_value(d: Seq<u8>, k: int)
    requires
        0 <= k < d.len(),
    ensures
        hex_value(d.take(k + 1)) == hex_value(d.take(k)) * 16 + hex_digit(d[k]) as nat,
{
    assert(d.take(k + 1).drop_last() =~= d.take(k));
}

proof fn lemma_prime_prefix(k: int)
    requires
        0 <= k < 64,
    ensures
        nibbles_value(prime_nibbles().take(k + 1)) == nibbles_value(prime_nibbles().take(k)) * 16
            + prime_nibble(k) as nat,
{
    assert(prime_nibbles().take(k + 1).drop_last() =~= prime_nibbles().take(k));
}

/// Whether a string of one to 64 hex digits has a value below the field prime.
/// The digits are compared with the prime's, most significant first, the string
/// read as if padded with leading zeros to 64 digits.
fn below_field_prime(d: &[u8]) -> (r: bool)
    requires
        0 < d@.len() <= 64,
        forall|i: int| 0 <= i < d@.len() ==> is_hex_byte(#[trigger] d@[i]),
    ensures
        r == (hex_value(d@) < field_prime()),
{
    let n = d.len();
    let pad: usize = 64 - n;
    let mut lt = false;
    let mut eq = true;
    let mut i: usize = 0;
    while i < 64
        invariant
            n == d@.len(),
            pad == 64 - n,
            0 < n <= 64,
            i <= 64,
            forall|j: int| 0 <= j < d@.len() ==> is_hex_byte(#[trigger] d@[j]),
            lt == (hex_value(d@.take(if i < pad { 0 } else { i - pad })) < nibbles_value(
                prime_nibbles().take(i as int),
            )),
            eq == (hex_value(d@.take(if i < pad { 0 } else { i - pad })) == nibbles_value(
                prime_nibbles().take(i as int),
            )),
        decreases 64 - i,
    {
        let e: u8 = prime_digit(i);
        let x: u8 = if i < pad {
            0
        } else {
            hex_digit_of(d[i - pad])
        };
        proof {
            let k: int = if i < pad { 0 } else { i - pad };
            let a = hex_value(d@.take(k));
            let p = nibbles_value(prime_nibbles().take(i as int));
            lemma_prime_prefix(i as int);
            lemma_digit_step(a, p, x as nat, e as nat);
            if i < pad {
                assert(d@.take(0) =~= Seq::<u8>::empty());
                assert(hex_value(d@.take(0)) == 0);
                if i + 1 < pad || i + 1 == pad {
                    assert(k == 0);
                }
            } else {
                lemma_prefix_value(d@, k);
            }
        }
        if eq {
            lt = x < e;
            eq = x == e;
        }
        i = i + 1;
    }
    proof {
        assert(d@.take(n as int) =~= d@);
        assert(prime_nibbles().take(64) =~= prime_nibbles());
    }
    lt
}

fn prime_digit(i: usize) -> (r: u8)
    requires
        i < 64,
    ensures
        r == prime_nibble(i as int),
        r < 16,
{
    if i == 1 {
        8
    } else if i == 14 || i == 15 || i == 63 {
        1
    } else {
        0
    }
}

fn hex_digit_of(b: u8) -> (r: u8)
    requires
        is_hex_byte(b),
    ensures
        r == hex_digit(b),
        r < 16,
{
    if 48 <= b && b <= 57 {
        b - 48
    } else if 97 <= b && b <= 102 {
        b - 87
    } else {
        b - 55
    }
}

} // verus!
