//! A registry of zero-knowledge proof verifiers with an irreversible kill switch.
//!
//! The owner of a [`Router`] registers verifier modules under 4-byte selectors. A proof is
//! sent with the selector of the verifier it is meant for, as a [`Seal`], and the router
//! says which module is to check it. A verifier can be stopped, by the owner or by anyone
//! who shows that it accepts a forged proof, and a verifier that has been stopped stays
//! stopped.

pub mod bn254;
mod bytes;
pub mod call;
pub mod error;
pub mod estop;
pub mod identity;
pub mod model;
pub mod ownership;
pub mod registry;
pub mod router;
pub mod seal;
pub mod selector;
pub mod state;

pub use call::{PublicInputs, Verdict, VerifierCall};
pub use error::RouterError;
pub use estop::{
    emergency_stop_by_owner, emergency_stop_with_proof, proof_of_exploit_call, EmergencyStop,
    EmergencyStopEvent,
};
pub use identity::Identity;
pub use ownership::{AuthorizationError, Ownership};
pub use router::Router;
pub use seal::{encode_seal, encode_seal_with_selector, Proof, Seal};
pub use selector::{Selector, VerifierParameters};
pub use state::{VerifierEntry, VerifierRouter};
