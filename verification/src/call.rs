//! The exchange with a verifier module.
//!
//! Verifier modules are deployed on their own and are reached through the host platform.
//! The router does not call them: it says which module is to be called with what, as a
//! [`VerifierCall`], and is told how the module answered, as a [`Verdict`].

use crate::error::RouterError;
use crate::identity::Identity;
use crate::seal::Proof;
use vstd::prelude::*;

verus! {

/// The public inputs of a verification: what was run and what it wrote.
#[derive(Clone, Copy, Debug, PartialEq, Eq)]
pub struct PublicInputs {
    /// The digest that identifies the program that was run.
    pub image_id: [u8; 32],
    /// The digest of the journal that the program wrote.
    pub journal_digest: [u8; 32],
}

/// A call that is to be made to a verifier module.
#[derive(Clone, Copy, Debug, PartialEq, Eq)]
pub struct VerifierCall {
    /// The module to call.
    pub verifier: Identity,
    /// The proof to hand to it.
    pub proof: Proof,
    /// The public inputs to hand to it.
    pub inputs: PublicInputs,
}

impl VerifierCall {
    /// Holds the module that was supplied for the call against the module that the call is
    /// addressed to: the call is made to no other.
    pub fn check_module(&self, supplied: &Identity) -> (result: Result<(), RouterError>)
        ensures
            *supplied == self.verifier ==> result == Ok::<(), RouterError>(()),
            *supplied != self.verifier ==> result == Err::<(), RouterError>(
                RouterError::InvalidVerifier,
            ),
    {
        if *supplied == self.verifier {
            Ok(())
        } else {
            Err(RouterError::InvalidVerifier)
        }
    }
}

/// The answer of a verifier module to a call.
#[derive(Clone, Copy, Debug, PartialEq, Eq, Structural)]
pub enum Verdict {
    /// The module returned: it holds the proof to be valid for the inputs.
    Accepted,
    /// The module aborted, with this code.
    Rejected(u64),
}

/// Whether all 32 bytes of a digest are zero.
pub open spec fn is_null_digest(digest: [u8; 32]) -> bool {
    forall|i: int| 0 <= i < 32 ==> digest[i] == 0
}

impl PublicInputs {
    /// The degenerate inputs: the null image ID and the null journal digest. No program has
    /// them, so a sound verifier accepts no proof for them.
    pub fn null() -> (inputs: PublicInputs)
        ensures
            inputs.is_null(),
    {
        PublicInputs { image_id: [0u8; 32], journal_digest: [0u8; 32] }
    }

    /// Whether both digests are null.
    pub open spec fn is_null(self) -> bool {
        is_null_digest(self.image_id) && is_null_digest(self.journal_digest)
    }
}

} // verus!
