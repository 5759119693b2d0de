//! The rules of the registry, on the slot of one selector.
//!
//! The registry keeps one slot for each selector. A slot is vacant until a verifier is
//! registered under the selector. It then holds the entry of that verifier, active at first
//! and stopped after an emergency stop. Once the owner has removed the stopped entry, the
//! slot is retired for good.
//!
//! The functions here decide for a slot and a request what is to be done. They hold for any
//! store of slots: for the [`crate::router::Router`], which keeps them in memory, and for a
//! host platform that keeps each entry in a record of its own.

use crate::bytes::bytes_equal;
use crate::error::RouterError;
use crate::identity::Identity;
use crate::call::{PublicInputs, VerifierCall};
use crate::ownership::{AuthorizationError, Ownership};
use crate::seal::Proof;
use crate::selector::Selector;
use crate::state::VerifierEntry;
use vstd::prelude::*;

verus! {

/// What the registry keeps for a selector.
#[derive(Clone, Copy, Debug, PartialEq, Eq)]
pub enum Slot {
    /// No verifier was ever registered under the selector.
    Vacant,
    /// The entry of the verifier that is registered under the selector.
    Occupied(VerifierEntry),
    /// The entry has been stopped and removed.
    Retired,
}

/// What registering `verifier` under `selector` does to the slot of the selector, when
/// `caller` asks for it: the entry that the slot is to hold, or the refusal.
///
/// Only the owner may register. A slot whose verifier has been stopped takes no verifier
/// any more, and an active entry is not overwritten by another verifier. Registering the
/// verifier that is active in the slot already succeeds and keeps the entry.
pub open spec fn registration(
    ownership: Ownership,
    caller: Identity,
    slot: Slot,
    selector: Selector,
    verifier: Identity,
) -> Result<VerifierEntry, RouterError> {
    if !ownership.is_owner(caller) {
        Err(RouterError::VerifierInvalidAuthority)
    } else {
        match slot {
            Slot::Vacant => Ok(VerifierEntry { selector, verifier, estopped: false }),
            Slot::Retired => Err(RouterError::SelectorDeactivated),
            Slot::Occupied(entry) => if entry.selector != selector || entry.estopped {
                Err(RouterError::SelectorDeactivated)
            } else if entry.verifier != verifier {
                Err(RouterError::DuplicateActiveSelector)
            } else {
                Ok(entry)
            },
        }
    }
}

/// Whether the entry in the slot of `selector` may be removed when `caller` asks for it.
///
/// Only the owner may remove, and only an entry that has been stopped.
pub open spec fn removal(
    ownership: Ownership,
    caller: Identity,
    slot: Slot,
    selector: Selector,
) -> Result<(), RouterError> {
    if !ownership.is_owner(caller) {
        Err(RouterError::Unauthorized(AuthorizationError::NotOwner))
    } else {
        match slot {
            Slot::Vacant => Err(RouterError::SelectorDeactivated),
            Slot::Retired => Err(RouterError::SelectorDeactivated),
            Slot::Occupied(entry) => if entry.selector != selector {
                Err(RouterError::SelectorDeactivated)
            } else if !entry.estopped {
                Err(RouterError::SelectorActive)
            } else {
                Ok(())
            },
        }
    }
}

/// The call by which a proof for `selector` is dispatched from the slot of the selector, or
/// the refusal.
///
/// A proof goes to the verifier that is active in the slot, with the inputs as they are.
/// There is no call for a slot without an active verifier.
pub open spec fn dispatching(
    slot: Slot,
    selector: Selector,
    proof: Proof,
    inputs: PublicInputs,
) -> Result<VerifierCall, RouterError> {
    match slot {
        Slot::Occupied(entry) => if entry.selector == selector && !entry.estopped {
            Ok(VerifierCall { verifier: entry.verifier, proof, inputs })
        } else {
            Err(RouterError::SelectorDeactivated)
        },
        _ => Err(RouterError::SelectorDeactivated),
    }
}

/// Decides a registration. See [`registration`].
pub fn register_verifier(
    ownership: &Ownership,
    caller: &Identity,
    slot: &Slot,
    selector: Selector,
    verifier: Identity,
) -> (result: Result<VerifierEntry, RouterError>)
    ensures
        result == registration(*ownership, *caller, *slot, selector, verifier),
{
    match ownership.assert_owner(caller) {
        Err(_) => {
            return Err(RouterError::VerifierInvalidAuthority);
        },
        Ok(()) => {},
    }
    match slot {
        Slot::Vacant => Ok(VerifierEntry::new(selector, verifier)),
        Slot::Retired => Err(RouterError::SelectorDeactivated),
        Slot::Occupied(entry) => {
            if !bytes_equal(&entry.selector, &selector) || entry.estopped {
                Err(RouterError::SelectorDeactivated)
            } else if entry.verifier != verifier {
                Err(RouterError::DuplicateActiveSelector)
            } else {
                Ok(*entry)
            }
        },
    }
}

/// Decides a removal. See [`removal`].
pub fn remove_verifier(
    ownership: &Ownership,
    caller: &Identity,
    slot: &Slot,
    selector: Selector,
) -> (result: Result<(), RouterError>)
    ensures
        result == removal(*ownership, *caller, *slot, selector),
{
    match ownership.assert_owner(caller) {
        Err(error) => {
            return Err(RouterError::Unauthorized(error));
        },
        Ok(()) => {},
    }
    match slot {
        Slot::Occupied(entry) => {
            if !bytes_equal(&entry.selector, &selector) {
                Err(RouterError::SelectorDeactivated)
            } else if !entry.estopped {
                Err(RouterError::SelectorActive)
            } else {
                Ok(())
            }
        },
        _ => Err(RouterError::SelectorDeactivated),
    }
}

/// Decides a dispatch. See [`dispatching`].
///
/// The answer of the verifier to the call is the verdict on the proof, as it is.
pub fn dispatch(slot: &Slot, selector: Selector, proof: Proof, inputs: PublicInputs) -> (result:
    Result<VerifierCall, RouterError>)
    ensures
        result == dispatching(*slot, selector, proof, inputs),
{
    match slot {
        Slot::Occupied(entry) => {
            if bytes_equal(&entry.selector, &selector) && !entry.estopped {
                Ok(VerifierCall { verifier: entry.verifier, proof, inputs })
            } else {
                Err(RouterError::SelectorDeactivated)
            }
        },
        _ => Err(RouterError::SelectorDeactivated),
    }
}

} // verus!
