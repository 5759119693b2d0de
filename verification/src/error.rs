//! The errors with which the router refuses an operation.

use crate::ownership::AuthorizationError;
use vstd::prelude::*;

verus! {

/// Why the router refused an operation. A refused operation changes nothing.
#[derive(Clone, Copy, Debug, PartialEq, Eq, Structural)]
pub enum RouterError {
    /// A verifier was to be registered by someone who does not own the router.
    VerifierInvalidAuthority,
    /// The selector has no entry, or its entry has been stopped.
    SelectorDeactivated,
    /// The verifier module that was supplied is not the one that the entry records.
    InvalidVerifier,
    /// The router was to be initialized by someone other than the expected initial owner.
    InvalidInitializationAuthority,
    /// Another verifier is registered and active under the selector.
    DuplicateActiveSelector,
    /// The entry was to be removed while it is still active.
    SelectorActive,
    /// The ownership guard turned the caller away.
    Unauthorized(AuthorizationError),
    /// The verifier module aborted with this code; the operation is aborted with it.
    VerifierRejected(u64),
}

impl RouterError {
    /// Whether the error says that the caller lacks the authority for the operation.
    pub open spec fn is_authorization_error(self) -> bool {
        self is VerifierInvalidAuthority || self is Unauthorized
    }

    /// The text of [`RouterError::message`].
    pub open spec fn message_text(self) -> Seq<char> {
        match self {
            RouterError::VerifierInvalidAuthority =>
                "Attempted to add a verifier contract that the router contract does not own and thus cannot delete"@,
            RouterError::SelectorDeactivated => "Selector has been deactivated"@,
            RouterError::InvalidVerifier => "Invalid verifier program"@,
            RouterError::InvalidInitializationAuthority =>
                "Authority used for initialization does not match the value expected by the program"@,
            RouterError::DuplicateActiveSelector =>
                "Another verifier is active under the selector"@,
            RouterError::SelectorActive => "Selector is still active"@,
            RouterError::Unauthorized(AuthorizationError::NotOwner) => "Not the current owner"@,
            RouterError::Unauthorized(AuthorizationError::NoPendingTransfer) =>
                "No ownership transfer is pending"@,
            RouterError::Unauthorized(AuthorizationError::NotPendingOwner) =>
                "Not the pending owner"@,
            RouterError::VerifierRejected(_) => "Verifier rejected the proof"@,
        }
    }

    /// A sentence for the user.
    pub fn message(&self) -> (text: String)
        ensures
            text@ == self.message_text(),
    {
        match self {
            RouterError::VerifierInvalidAuthority =>
                "Attempted to add a verifier contract that the router contract does not own and thus cannot delete".to_string(),
            RouterError::SelectorDeactivated => "Selector has been deactivated".to_string(),
            RouterError::InvalidVerifier => "Invalid verifier program".to_string(),
            RouterError::InvalidInitializationAuthority =>
                "Authority used for initialization does not match the value expected by the program".to_string(),
            RouterError::DuplicateActiveSelector =>
                "Another verifier is active under the selector".to_string(),
            RouterError::SelectorActive => "Selector is still active".to_string(),
            RouterError::Unauthorized(AuthorizationError::NotOwner) =>
                "Not the current owner".to_string(),
            RouterError::Unauthorized(AuthorizationError::NoPendingTransfer) =>
                "No ownership transfer is pending".to_string(),
            RouterError::Unauthorized(AuthorizationError::NotPendingOwner) =>
                "Not the pending owner".to_string(),
            RouterError::VerifierRejected(_) => "Verifier rejected the proof".to_string(),
        }
    }
}

} // verus!
