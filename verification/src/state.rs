//! The records that the router keeps.

use crate::identity::Identity;
use crate::ownership::Ownership;
use crate::selector::Selector;
use vstd::prelude::*;

verus! {

/// The record of the router itself: who owns it.
#[derive(Clone, Copy, Debug, PartialEq, Eq)]
pub struct VerifierRouter {
    pub ownership: Ownership,
}

/// The record of one registered verifier.
///
/// An entry is created active. The only change it ever sees is the emergency stop, which
/// sets `estopped` and cannot be undone.
#[derive(Clone, Copy, Debug, PartialEq, Eq)]
pub struct VerifierEntry {
    /// The selector under which the verifier is registered.
    pub selector: Selector,
    /// The verifier module that answers for the selector.
    pub verifier: Identity,
    /// Whether the verifier has been stopped.
    pub estopped: bool,
}

impl VerifierEntry {
    /// The entry of a verifier that has just been registered.
    pub fn new(selector: Selector, verifier: Identity) -> (entry: VerifierEntry)
        ensures
            entry == (VerifierEntry { selector, verifier, estopped: false }),
    {
        VerifierEntry { selector, verifier, estopped: false }
    }

    /// This entry, stopped.
    pub open spec fn stopped(self) -> VerifierEntry {
        VerifierEntry { selector: self.selector, verifier: self.verifier, estopped: true }
    }
}

} // verus!
