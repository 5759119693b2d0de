//! The ownership guard: who may administer the router, and how that authority is handed on.
//!
//! Authority moves in two steps. The owner proposes a successor; the successor accepts.
//! Until the successor has accepted, the owner keeps full authority, so a mistyped address
//! cannot lock the registry.

use crate::identity::Identity;
use vstd::prelude::*;

verus! {

/// Why the ownership guard turned a caller away.
#[derive(Clone, Copy, Debug, PartialEq, Eq, Structural)]
pub enum AuthorizationError {
    /// The caller is not the current owner.
    NotOwner,
    /// A transfer was to be accepted, but none is pending.
    NoPendingTransfer,
    /// A transfer was to be accepted by someone other than the proposed owner.
    NotPendingOwner,
}

/// The administrative authority over a router.
#[derive(Clone, Copy, Debug, PartialEq, Eq)]
pub struct Ownership {
    /// The identity that holds the authority.
    pub owner: Identity,
    /// The identity that the owner has proposed as successor, if any.
    pub pending_owner: Option<Identity>,
}

impl Ownership {
    /// The ownership of a fresh router: `owner` holds the authority and no transfer is pending.
    pub fn new(owner: Identity) -> (ownership: Ownership)
        ensures
            ownership == (Ownership { owner, pending_owner: None }),
    {
        Ownership { owner, pending_owner: None }
    }

    /// Whether `candidate` holds the authority.
    pub open spec fn is_owner(self, candidate: Identity) -> bool {
        candidate == self.owner
    }

    /// The ownership after the owner has proposed `new_owner`.
    pub open spec fn proposed(self, new_owner: Identity) -> Ownership {
        Ownership { owner: self.owner, pending_owner: Some(new_owner) }
    }

    /// What accepting the pending transfer as `caller` leads to.
    pub open spec fn accepted(self, caller: Identity) -> Result<Ownership, AuthorizationError> {
        match self.pending_owner {
            None => Err(AuthorizationError::NoPendingTransfer),
            Some(pending) => if pending == caller {
                Ok(Ownership { owner: pending, pending_owner: None })
            } else {
                Err(AuthorizationError::NotPendingOwner)
            },
        }
    }

    /// Succeeds if and only if `candidate` is the owner. Changes nothing.
    pub fn assert_owner(&self, candidate: &Identity) -> (result: Result<(), AuthorizationError>)
        ensures
            self.is_owner(*candidate) ==> result == Ok::<(), AuthorizationError>(()),
            !self.is_owner(*candidate) ==> result == Err::<(), AuthorizationError>(
                AuthorizationError::NotOwner,
            ),
    {
        if *candidate == self.owner {
            Ok(())
        } else {
            Err(AuthorizationError::NotOwner)
        }
    }

    /// Proposes `new_owner` as successor. Only the owner may do so. A proposal replaces the
    /// one before it, if there was one.
    pub fn propose_transfer(&mut self, caller: &Identity, new_owner: Identity) -> (result: Result<
        (),
        AuthorizationError,
    >)
        ensures
            if old(self).is_owner(*caller) {
                &&& result == Ok::<(), AuthorizationError>(())
                &&& *final(self) == old(self).proposed(new_owner)
            } else {
                &&& result == Err::<(), AuthorizationError>(AuthorizationError::NotOwner)
                &&& *final(self) == *old(self)
            },
    {
        if *caller == self.owner {
            self.pending_owner = Some(new_owner);
            Ok(())
        } else {
            Err(AuthorizationError::NotOwner)
        }
    }

    /// Accepts the pending transfer. Only the proposed owner may do so: the caller becomes
    /// the owner and no transfer is pending any more. Otherwise nothing changes.
    pub fn accept_transfer(&mut self, caller: &Identity) -> (result: Result<(), AuthorizationError>)
        ensures
            match old(self).accepted(*caller) {
                Ok(after) => result == Ok::<(), AuthorizationError>(()) && *final(self) == after,
                Err(error) => result == Err::<(), AuthorizationError>(error) && *final(self)
                    == *old(self),
            },
    {
        match self.pending_owner {
            None => Err(AuthorizationError::NoPendingTransfer),
            Some(pending) => {
                if pending == *caller {
                    self.owner = pending;
                    self.pending_owner = None;
                    Ok(())
                } else {
                    Err(AuthorizationError::NotPendingOwner)
                }
            },
        }
    }
}

} // verus!
