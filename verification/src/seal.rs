//! The seal codec: reshapes a raw proof blob into the form that a verifier takes.
//!
//! A raw Groth16 proof is 256 bytes: the G1 point `A`, the G2 point `B` and the G1 point `C`,
//! at fixed offsets. A seal carries the same three groups, with `A` negated as the pairing
//! check wants it, behind the 4-byte selector of the verifier that the proof is meant for.
//! The split is by position only: whether the bytes denote curve points is for the verifier
//! to say.

use crate::bn254::{lemma_negation_is_involution, negate_g1, negated_point};
use crate::bytes::take_bytes;
use crate::selector::{current_selector, default_parameters, Selector};
use vstd::prelude::*;

verus! {

/// A Groth16 proof as a verifier takes it.
#[derive(Clone, Copy, Debug, PartialEq, Eq)]
pub struct Proof {
    /// The G1 point `A`, negated.
    pub pi_a: [u8; 64],
    /// The G2 point `B`.
    pub pi_b: [u8; 128],
    /// The G1 point `C`.
    pub pi_c: [u8; 64],
}

/// A proof behind the selector of the verifier it is addressed to.
#[derive(Clone, Copy, Debug, PartialEq, Eq)]
pub struct Seal {
    pub selector: Selector,
    pub proof: Proof,
}

/// The three byte groups of a [`Proof`].
pub struct ProofView {
    pub pi_a: Seq<u8>,
    pub pi_b: Seq<u8>,
    pub pi_c: Seq<u8>,
}

/// The selector and the byte groups of a [`Seal`].
pub struct SealView {
    pub selector: Seq<u8>,
    pub proof: ProofView,
}

impl View for Proof {
    type V = ProofView;

    open spec fn view(&self) -> ProofView {
        ProofView { pi_a: self.pi_a@, pi_b: self.pi_b@, pi_c: self.pi_c@ }
    }
}

impl View for Seal {
    type V = SealView;

    open spec fn view(&self) -> SealView {
        SealView { selector: self.selector@, proof: self.proof@ }
    }
}

/// The proof that a raw 256-byte blob encodes to.
pub open spec fn encoded_proof(raw: Seq<u8>) -> ProofView {
    ProofView {
        pi_a: negated_point(raw.subrange(0, 64)),
        pi_b: raw.subrange(64, 192),
        pi_c: raw.subrange(192, 256),
    }
}

/// The seal that a raw 256-byte blob encodes to under a selector.
pub open spec fn encoded_seal(raw: Seq<u8>, selector: Seq<u8>) -> SealView {
    SealView { selector, proof: encoded_proof(raw) }
}

/// The negation round-trips: negating the first group of an encoded proof once more gives
/// the first 64 bytes of the raw blob back, and the other two groups are the rest of the
/// blob as it was.
pub proof fn lemma_encoding_round_trip(raw: Seq<u8>)
    requires
        raw.len() == 256,
    ensures
        negated_point(encoded_proof(raw).pi_a) == raw.subrange(0, 64),
        negated_point(encoded_proof(raw).pi_a) + encoded_proof(raw).pi_b + encoded_proof(
            raw,
        ).pi_c == raw,
{
    lemma_negation_is_involution(raw.subrange(0, 64));
    assert(raw.subrange(0, 64) + raw.subrange(64, 192) + raw.subrange(192, 256) =~= raw);
}

/// Encodes a raw Groth16 proof as a seal for the verifier with the given selector.
pub fn encode_seal_with_selector(seal: &[u8; 256], selector: Selector) -> (encoded: Seal)
    ensures
        encoded@ == encoded_seal(seal@, selector@),
{
    let raw_a: [u8; 64] = take_bytes(seal, 0);
    let pi_b: [u8; 128] = take_bytes(seal, 64);
    let pi_c: [u8; 64] = take_bytes(seal, 192);
    let pi_a: [u8; 64] = negate_g1(&raw_a);
    Seal { selector, proof: Proof { pi_a, pi_b, pi_c } }
}

/// Encodes a raw Groth16 proof as a seal for the verifier of the zkVM version that this
/// library is built with: the selector is derived from the default verifier parameters of
/// `risc0_zkvm`.
///
/// To address another version of the verifier, use [`encode_seal_with_selector`].
pub fn encode_seal(seal: &[u8; 256]) -> (encoded: Seal)
    ensures
        encoded@ == encoded_seal(seal@, current_selector()),
{
    let parameters = default_parameters();
    let selector: Selector = parameters.selector();
    encode_seal_with_selector(seal, selector)
}

} // verus!
