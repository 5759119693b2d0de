//! Big-endian arithmetic on the coordinates of BN254 curve points.
//!
//! A G1 point is 64 bytes: the `x` coordinate in the first 32 and the `y` coordinate in the
//! last 32, both big-endian. Negating a point keeps `x` and replaces `y` by `q - y`, where
//! `q` is the modulus of the base field. The subtraction is done on 256-bit words and wraps:
//! the bytes are not checked to denote a field element, let alone a point of the curve.

use crate::bytes::take_bytes;
use vstd::arithmetic::div_mod::{lemma_mod_add_multiples_vanish, lemma_small_mod};
use vstd::prelude::*;

verus! {

/// The modulus `q` of the BN254 base field, big-endian.
pub const BASE_FIELD_MODULUS_Q: [u8; 32] = [
    0x30, 0x64, 0x4e, 0x72, 0xe1, 0x31, 0xa0, 0x29, 0xb8, 0x50, 0x45, 0xb6, 0x81, 0x81, 0x58, 0x5d,
    0x97, 0x81, 0x6a, 0x91, 0x68, 0x71, 0xca, 0x8d, 0x3c, 0x20, 0x8c, 0x16, 0xd8, 0x7c, 0xfd, 0x47,
];

/// `256` to the power `n`: the number of values that `n` bytes can denote.
pub open spec fn pow256(n: nat) -> nat
    decreases n,
{
    if n == 0 {
        1
    } else {
        256 * pow256((n - 1) as nat)
    }
}

/// The number that a byte string denotes when read big-endian.
pub open spec fn be_value(s: Seq<u8>) -> nat
    decreases s.len(),
{
    if s.len() == 0 {
        0
    } else {
        be_value(s.drop_last()) * 256 + s.last() as nat
    }
}

/// The big-endian encoding of `n` in `len` bytes; the bytes above the width are dropped.
pub open spec fn be_bytes(n: nat, len: nat) -> Seq<u8>
    decreases len,
{
    if len == 0 {
        Seq::empty()
    } else {
        be_bytes(n / 256, (len - 1) as nat).push((n % 256) as u8)
    }
}

/// The modulus `q` of the BN254 base field as a number.
pub open spec fn base_field_modulus() -> nat {
    0x30644e72e131a029b85045b68181585d97816a916871ca8d3c208c16d87cfd47nat
}

/// The number of values of a 32-byte word, `2^256`.
pub open spec fn word_modulus() -> nat {
    0x1_0000000000000000_0000000000000000_0000000000000000_0000000000000000nat
}

/// `a - b` on 32-byte words, wrapping around at `2^256`.
pub open spec fn wrapping_difference(a: nat, b: nat) -> nat {
    ((a - b) % (word_modulus() as int)) as nat
}

/// The negation of a 64-byte G1 point: `x` as it is, `y` replaced by `q - y`.
pub open spec fn negated_point(point: Seq<u8>) -> Seq<u8> {
    point.subrange(0, 32) + be_bytes(
        wrapping_difference(base_field_modulus(), be_value(point.subrange(32, 64))),
        32,
    )
}

/// Thirty-two bytes denote the numbers below `2^256`.
pub proof fn lemma_pow256_word()
    ensures
        pow256(32) == word_modulus(),
{
    reveal_with_fuel(pow256, 33);
}

/// A byte string of length `n` denotes a number below `256^n`.
pub proof fn lemma_be_value_bound(s: Seq<u8>)
    ensures
        be_value(s) < pow256(s.len()),
    decreases s.len(),
{
    if s.len() > 0 {
        lemma_be_value_bound(s.drop_last());
    }
}

/// Putting a byte in front of a string adds that byte, shifted past the string.
pub proof fn lemma_be_value_prepend(x: u8, t: Seq<u8>)
    ensures
        be_value(seq![x] + t) == x * pow256(t.len()) + be_value(t),
    decreases t.len(),
{
    let s = seq![x] + t;
    if t.len() == 0 {
        assert(s.drop_last() =~= Seq::<u8>::empty());
        assert(s.last() == x);
        assert(be_value(s) == be_value(s.drop_last()) * 256 + x);
        assert(x * pow256(0) == x) by (nonlinear_arith)
            requires
                pow256(0) == 1,
        ;
    } else {
        assert(s.drop_last() =~= seq![x] + t.drop_last());
        assert(s.last() == t.last());
        lemma_be_value_prepend(x, t.drop_last());
        let p = pow256(t.drop_last().len());
        let v = be_value(t.drop_last());
        assert(pow256(t.len()) == 256 * p);
        assert(be_value(s) == (x * p + v) * 256 + t.last());
        assert((x * p + v) * 256 == x * (256 * p) + v * 256) by (nonlinear_arith);
    }
}

/// Encoding the value of a byte string in as many bytes gives the string back.
pub proof fn lemma_be_bytes_of_value(s: Seq<u8>)
    ensures
        be_bytes(be_value(s), s.len()) == s,
    decreases s.len(),
{
    if s.len() > 0 {
        lemma_be_bytes_of_value(s.drop_last());
        assert(be_bytes(be_value(s), s.len()) =~= s);
    } else {
        assert(be_bytes(be_value(s), s.len()) =~= s);
    }
}

/// An encoding in `len` bytes has `len` bytes, and it denotes the number that was encoded
/// where that number fits in `len` bytes.
pub proof fn lemma_value_of_be_bytes(n: nat, len: nat)
    ensures
        be_bytes(n, len).len() == len,
        n < pow256(len) ==> be_value(be_bytes(n, len)) == n,
    decreases len,
{
    if len > 0 {
        lemma_value_of_be_bytes(n / 256, (len - 1) as nat);
        let s = be_bytes(n, len);
        assert(s.drop_last() =~= be_bytes(n / 256, (len - 1) as nat));
    }
}

/// The value of the first `n` bytes of a string, by Horner's rule.
spec fn prefix_value(s: Seq<u8>, n: nat) -> nat
    decreases n,
{
    if n == 0 {
        0
    } else {
        prefix_value(s, (n - 1) as nat) * 256 + s[n - 1] as nat
    }
}

proof fn lemma_prefix_value(s: Seq<u8>, n: nat)
    requires
        n <= s.len(),
    ensures
        be_value(s.subrange(0, n as int)) == prefix_value(s, n),
    decreases n,
{
    if n > 0 {
        assert(s.subrange(0, n as int).drop_last() =~= s.subrange(0, n - 1));
        lemma_prefix_value(s, (n - 1) as nat);
    }
}

/// The bytes of [`BASE_FIELD_MODULUS_Q`] denote the modulus of the base field.
pub proof fn lemma_modulus_bytes()
    ensures
        be_value(BASE_FIELD_MODULUS_Q@) == base_field_modulus(),
{
    let q = BASE_FIELD_MODULUS_Q@;
    lemma_prefix_value(q, 32);
    assert(q.subrange(0, 32) =~= q);
    reveal_with_fuel(prefix_value, 33);
    assert(prefix_value(q, 32) == base_field_modulus());
}

/// Negating a point twice gives the point back.
pub proof fn lemma_negation_is_involution(point: Seq<u8>)
    requires
        point.len() == 64,
    ensures
        negated_point(point).len() == 64,
        negated_point(negated_point(point)) == point,
{
    let q = base_field_modulus();
    let y = point.subrange(32, 64);
    let v = be_value(y);
    lemma_be_value_bound(y);
    lemma_pow256_word();
    let w = wrapping_difference(q, v);
    lemma_wrapping_difference(q, v);
    lemma_value_of_be_bytes(w, 32);
    let once = negated_point(point);
    assert(once.subrange(0, 32) =~= point.subrange(0, 32));
    assert(once.subrange(32, 64) =~= be_bytes(w, 32));
    lemma_wrapping_difference(q, w);
    assert(wrapping_difference(q, w) == v);
    lemma_be_bytes_of_value(y);
    assert(negated_point(once) =~= point);
}

/// On words, `a - b` wraps to `a - b` or to `a - b + 2^256`.
pub proof fn lemma_wrapping_difference(a: nat, b: nat)
    requires
        a < word_modulus(),
        b < word_modulus(),
    ensures
        wrapping_difference(a, b) < word_modulus(),
        a >= b ==> wrapping_difference(a, b) == a - b,
        a < b ==> wrapping_difference(a, b) == a - b + word_modulus(),
{
    let m = word_modulus() as int;
    if a >= b {
        lemma_small_mod((a - b) as nat, word_modulus());
    } else {
        lemma_mod_add_multiples_vanish(a - b, m);
        lemma_small_mod((a - b + m) as nat, word_modulus());
    }
}

/// Replaces `a` by `a - b`, both read as big-endian 256-bit numbers, wrapping at `2^256`.
pub fn subtract_be_bytes(a: &mut [u8; 32], b: &[u8; 32])
    ensures
        be_value(final(a)@) == wrapping_difference(be_value(old(a)@), be_value(b@)),
{
    let ghost a0 = a@;
    let mut borrow: u16 = 0;
    let mut i: usize = 32;
    while i > 0
        invariant
            i <= 32,
            borrow <= 1,
            a0.len() == 32,
            forall|j: int| 0 <= j < i ==> a@[j] == a0[j],
            be_value(a@.subrange(i as int, 32)) == be_value(a0.subrange(i as int, 32)) - be_value(
                b@.subrange(i as int, 32),
            ) + borrow * pow256((32 - i) as nat),
        decreases i,
    {
        let ghost before = a@;
        let ghost p = pow256((32 - i) as nat);
        let ghost old_borrow = borrow;
        i -= 1;
        let x: u16 = a[i] as u16;
        let y: u16 = b[i] as u16 + borrow;
        let byte: u8;
        if x >= y {
            byte = (x - y) as u8;
            borrow = 0;
        } else {
            byte = (x + 256 - y) as u8;
            borrow = 1;
        }
        a[i] = byte;
        proof {
            let k = i as int;
            assert(a@.subrange(k + 1, 32) =~= before.subrange(k + 1, 32));
            assert(a@.subrange(k, 32) =~= seq![byte] + a@.subrange(k + 1, 32));
            assert(a0.subrange(k, 32) =~= seq![a0[k]] + a0.subrange(k + 1, 32));
            assert(b@.subrange(k, 32) =~= seq![b@[k]] + b@.subrange(k + 1, 32));
            lemma_be_value_prepend(byte, a@.subrange(k + 1, 32));
            lemma_be_value_prepend(a0[k], a0.subrange(k + 1, 32));
            lemma_be_value_prepend(b@[k], b@.subrange(k + 1, 32));
            let xa = a0[k] as int;
            let yb = b@[k] as int;
            let bt = byte as int;
            let ob = old_borrow as int;
            let nb = borrow as int;
            assert(bt == xa - yb - ob + 256 * nb);
            assert(pow256((32 - k) as nat) == 256 * p);
            assert(bt * p == xa * p - yb * p - ob * p + nb * (256 * p)) by (nonlinear_arith)
                requires
                    bt == xa - yb - ob + 256 * nb,
            ;
        }
    }
    proof {
        assert(a@.subrange(0, 32) =~= a@);
        assert(a0.subrange(0, 32) =~= a0);
        assert(b@.subrange(0, 32) =~= b@);
        lemma_pow256_word();
        lemma_be_value_bound(a@);
        lemma_be_value_bound(a0);
        lemma_be_value_bound(b@);
        lemma_wrapping_difference(be_value(a0), be_value(b@));
        let carried = borrow * pow256(32);
        assert(carried == if borrow == 0 {
            0
        } else {
            word_modulus()
        }) by (nonlinear_arith)
            requires
                carried == borrow * pow256(32),
                pow256(32) == word_modulus(),
                borrow <= 1,
        ;
    }
}

/// Negates a G1 point: copies `x` and replaces `y` by `q - y`.
pub fn negate_g1(point: &[u8; 64]) -> (negated: [u8; 64])
    ensures
        negated@ == negated_point(point@),
{
    let y: [u8; 32] = take_bytes(point, 32);
    let mut difference: [u8; 32] = BASE_FIELD_MODULUS_Q;
    subtract_be_bytes(&mut difference, &y);
    let mut negated: [u8; 64] = [0u8; 64];
    let mut k: usize = 0;
    while k < 32
        invariant
            k <= 32,
            forall|j: int| 0 <= j < k ==> negated@[j] == point@[j],
            forall|j: int| 0 <= j < k ==> negated@[32 + j] == difference@[j],
        decreases 32 - k,
    {
        negated[k] = point[k];
        negated[32 + k] = difference[k];
        k += 1;
    }
    proof {
        lemma_modulus_bytes();
        lemma_be_bytes_of_value(difference@);
        assert(negated@ =~= negated_point(point@));
    }
    negated
}

} // verus!
