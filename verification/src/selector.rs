//! Selectors: the fingerprints by which verifiers are told apart.
//!
//! A selector is the first four bytes of the digest of a verifier's parameter set. The set
//! is the Groth16 verification key of the proof system, which is fixed, and two 32-byte
//! constants that commit to the circuits: the control root and the BN254 identity control
//! ID. The digest is computed by `risc0_zkvm`.

use crate::bytes::take_bytes;
use risc0_zkvm::sha::{Digest, Digestible};
use risc0_zkvm::Groth16ReceiptVerifierParameters;
use vstd::prelude::*;

verus! {

/// The 4-byte fingerprint of a verifier's parameter set.
pub type Selector = [u8; 4];

/// The constants of a verifier's parameter set that commit to the circuits.
#[derive(Clone, Copy, Debug, PartialEq, Eq)]
pub struct VerifierParameters {
    /// The root of the set of control IDs that the verifier accepts.
    pub control_root: [u8; 32],
    /// The control ID of the identity program over the BN254 scalar field.
    pub bn254_control_id: [u8; 32],
}

/// The control root of the zkVM version that this library is built with.
pub const ZKVM_CONTROL_ROOT: [u8; 32] = [
    0xa5, 0x4d, 0xc8, 0x5a, 0xc9, 0x9f, 0x85, 0x1c, 0x92, 0xd7, 0xc9, 0x6d, 0x73, 0x18, 0xaf, 0x41,
    0xdb, 0xe7, 0xc0, 0x19, 0x4e, 0xdf, 0xcc, 0x37, 0xeb, 0x4d, 0x42, 0x2a, 0x99, 0x8c, 0x1f, 0x56,
];

/// The BN254 identity control ID of the zkVM version that this library is built with.
pub const ZKVM_BN254_CONTROL_ID: [u8; 32] = [
    0xc0, 0x7a, 0x65, 0x14, 0x5c, 0x3c, 0xb4, 0x8b, 0x61, 0x01, 0x96, 0x2e, 0xa6, 0x07, 0xa4, 0xdd,
    0x93, 0xc7, 0x53, 0xbb, 0x26, 0x97, 0x5c, 0xb4, 0x7f, 0xeb, 0x00, 0xd3, 0x66, 0x6e, 0x44, 0x04,
];

/// The digest that `risc0_zkvm` gives to the Groth16 verifier parameters with this control
/// root and this BN254 control ID, and with the verification key of the proof system.
pub uninterp spec fn groth16_parameters_digest(
    control_root: Seq<u8>,
    bn254_control_id: Seq<u8>,
) -> Seq<u8>;

/// The selector of a parameter set: the first four bytes of its digest.
pub open spec fn selector_of(parameters: VerifierParameters) -> Seq<u8> {
    groth16_parameters_digest(parameters.control_root@, parameters.bn254_control_id@).subrange(
        0,
        4,
    )
}

/// The selector of the verifier of the zkVM version that this library is built with.
pub open spec fn current_selector() -> Seq<u8> {
    groth16_parameters_digest(ZKVM_CONTROL_ROOT@, ZKVM_BN254_CONTROL_ID@).subrange(0, 4)
}

/// Calls `Digestible::digest` of `risc0_zkvm::sha` on a `Groth16ReceiptVerifierParameters`
/// that holds the two given constants and the default verification key. Believed: the digest
/// depends on the two constants alone, so it is the named digest of them.
#[verifier::external_body]
fn digest_parameters(control_root: &[u8; 32], bn254_control_id: &[u8; 32]) -> (digest: [u8; 32])
    ensures
        digest@ == groth16_parameters_digest(control_root@, bn254_control_id@),
{
    let parameters = Groth16ReceiptVerifierParameters {
        control_root: Digest::from(*control_root),
        bn254_control_id: Digest::from(*bn254_control_id),
        ..Groth16ReceiptVerifierParameters::default()
    };
    parameters.digest().into()
}

/// Calls `Groth16ReceiptVerifierParameters::default` of `risc0_zkvm` and hands out the two
/// constants it holds. Believed: they are [`ZKVM_CONTROL_ROOT`] and
/// [`ZKVM_BN254_CONTROL_ID`], as the zkVM version that this library is built with has them.
/// The two constants here have to follow that version.
#[verifier::external_body]
pub(crate) fn default_parameters() -> (parameters: VerifierParameters)
    ensures
        parameters.control_root@ == ZKVM_CONTROL_ROOT@,
        parameters.bn254_control_id@ == ZKVM_BN254_CONTROL_ID@,
{
    let parameters = Groth16ReceiptVerifierParameters::default();
    VerifierParameters {
        control_root: parameters.control_root.into(),
        bn254_control_id: parameters.bn254_control_id.into(),
    }
}

/// Cuts the selector off the front of a digest.
pub fn selector_from_digest(digest: &[u8; 32]) -> (selector: Selector)
    ensures
        selector@ == digest@.subrange(0, 4),
{
    take_bytes(digest, 0)
}

impl VerifierParameters {
    /// Derives the selector of these parameters.
    pub fn selector(&self) -> (selector: Selector)
        ensures
            selector@ == selector_of(*self),
    {
        let digest: [u8; 32] = digest_parameters(&self.control_root, &self.bn254_control_id);
        selector_from_digest(&digest)
    }
}

/// Selector derivation is a function of the parameter bytes: parameter sets with the same
/// bytes have the same selector.
pub proof fn lemma_selector_is_deterministic(a: VerifierParameters, b: VerifierParameters)
    requires
        a.control_root@ == b.control_root@,
        a.bn254_control_id@ == b.bn254_control_id@,
    ensures
        selector_of(a) == selector_of(b),
{
}

} // verus!
