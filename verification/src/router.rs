//! The router: the owner's registry of verifiers, and the way that proofs take through it
//! to the verifier they are meant for.
//!
//! A [`Router`] holds the record of the router and one slot for each selector that was ever
//! registered. What it is, is its view, a [`RouterView`]; what its operations do is said in
//! terms of that view, by the functions of the same names in [`crate::model`].
//!
//! The router does not call verifier modules. [`Router::dispatch`] and
//! [`Router::proof_of_exploit_call`] give the call that is to be made; the caller makes it
//! and, for a proof of exploit, reports the answer to [`Router::stop_with_proof`].

use crate::error::RouterError;
use crate::estop::{
    emergency_stop_by_owner, emergency_stop_with_proof, exploit_reason, owner_revocation_reason,
    EmergencyStop, EmergencyStopEvent,
};
use crate::identity::Identity;
use crate::model::RouterView;
use crate::call::{PublicInputs, Verdict, VerifierCall};
use crate::ownership::Ownership;
use crate::registry::{dispatch, register_verifier, remove_verifier, Slot};
use crate::seal::Proof;
use crate::selector::Selector;
use crate::state::{VerifierEntry, VerifierRouter};
use std::collections::HashMap;
use vstd::prelude::*;

verus! {

/// What is kept under the key of a selector: the verifier and its state, or the mark that
/// the entry has been removed. The selector itself is in the key.
#[derive(Clone, Copy)]
enum Kept {
    Entry { verifier: Identity, estopped: bool },
    Retired,
}

/// A router with its registry.
pub struct Router {
    address: Identity,
    account: VerifierRouter,
    kept: HashMap<u32, Kept>,
}

/// The number under which the slot of a selector is kept: the selector read big-endian.
spec fn selector_key(selector: Selector) -> u32 {
    (selector[0] as int * 0x100_0000 + selector[1] as int * 0x1_0000 + selector[2] as int * 0x100
        + selector[3] as int) as u32
}

/// Different selectors have different keys.
proof fn lemma_selector_key_injective(a: Selector, b: Selector)
    requires
        selector_key(a) == selector_key(b),
    ensures
        a == b,
{
    assert(a[3] == b[3]);
    assert(a[2] == b[2]);
    assert(a[1] == b[1]);
    assert(a[0] == b[0]);
    assert(a =~= b);
}

spec fn entries_of(kept: Map<u32, Kept>) -> Map<Selector, VerifierEntry> {
    Map::new(
        |selector: Selector|
            kept.contains_key(selector_key(selector)) && kept[selector_key(selector)] is Entry,
        |selector: Selector|
            VerifierEntry {
                selector,
                verifier: kept[selector_key(selector)]->verifier,
                estopped: kept[selector_key(selector)]->estopped,
            },
    )
}

spec fn retired_of(kept: Map<u32, Kept>) -> Set<Selector> {
    Set::new(
        |selector: Selector|
            kept.contains_key(selector_key(selector)) && kept[selector_key(selector)] is Retired,
    )
}

proof fn lemma_keep_entry(kept: Map<u32, Kept>, entry: VerifierEntry)
    ensures
        entries_of(
            kept.insert(
                selector_key(entry.selector),
                Kept::Entry { verifier: entry.verifier, estopped: entry.estopped },
            ),
        ) == entries_of(kept).insert(entry.selector, entry),
        retired_of(
            kept.insert(
                selector_key(entry.selector),
                Kept::Entry { verifier: entry.verifier, estopped: entry.estopped },
            ),
        ) == retired_of(kept).remove(entry.selector),
{
    let key = selector_key(entry.selector);
    let after = kept.insert(
        key,
        Kept::Entry { verifier: entry.verifier, estopped: entry.estopped },
    );
    assert forall|selector: Selector| selector != entry.selector implies selector_key(selector)
        != key by {
        if selector_key(selector) == key {
            lemma_selector_key_injective(selector, entry.selector);
        }
    }
    assert(entries_of(after) =~= entries_of(kept).insert(entry.selector, entry));
    assert(retired_of(after) =~= retired_of(kept).remove(entry.selector));
}

proof fn lemma_keep_retired(kept: Map<u32, Kept>, selector: Selector)
    ensures
        entries_of(kept.insert(selector_key(selector), Kept::Retired)) == entries_of(kept).remove(
            selector,
        ),
        retired_of(kept.insert(selector_key(selector), Kept::Retired)) == retired_of(kept).insert(
            selector,
        ),
{
    let key = selector_key(selector);
    let after = kept.insert(key, Kept::Retired);
    assert forall|other: Selector| other != selector implies selector_key(other) != key by {
        if selector_key(other) == key {
            lemma_selector_key_injective(other, selector);
        }
    }
    assert(entries_of(after) =~= entries_of(kept).remove(selector));
    assert(retired_of(after) =~= retired_of(kept).insert(selector));
}

/// The identity that owns a router when no other has been configured: the all-zero
/// address. It is a placeholder, and no one holds its key.
pub fn default_initial_owner() -> (owner: Identity)
    ensures
        forall|i: int| 0 <= i < 32 ==> owner.bytes[i] == 0,
{
    Identity::new([0u8; 32])
}

impl View for Router {
    type V = RouterView;

    closed spec fn view(&self) -> RouterView {
        RouterView {
            address: self.address,
            ownership: self.account.ownership,
            entries: entries_of(self.kept@),
            retired: retired_of(self.kept@),
        }
    }
}

impl Router {
    /// The view of a router is well-formed.
    pub proof fn lemma_view_wf(&self)
        ensures
            self@.wf(),
    {
    }

    fn key_of(selector: &Selector) -> (key: u32)
        ensures
            key == selector_key(*selector),
    {
        let b0: u32 = selector[0] as u32;
        let b1: u32 = selector[1] as u32;
        let b2: u32 = selector[2] as u32;
        let b3: u32 = selector[3] as u32;
        b0 * 0x100_0000 + b1 * 0x1_0000 + b2 * 0x100 + b3
    }

    /// What is kept for `selector`.
    pub fn slot(&self, selector: &Selector) -> (slot: Slot)
        ensures
            slot == self@.slot(*selector),
    {
        let key: u32 = Self::key_of(selector);
        match self.kept.get(&key) {
            Some(Kept::Entry { verifier, estopped }) => Slot::Occupied(
                VerifierEntry { selector: *selector, verifier: *verifier, estopped: *estopped },
            ),
            Some(Kept::Retired) => Slot::Retired,
            None => Slot::Vacant,
        }
    }

    fn put(&mut self, entry: VerifierEntry)
        ensures
            final(self)@ == (RouterView {
                address: old(self)@.address,
                ownership: old(self)@.ownership,
                entries: old(self)@.entries.insert(entry.selector, entry),
                retired: old(self)@.retired.remove(entry.selector),
            }),
    {
        proof {
            lemma_keep_entry(self.kept@, entry);
        }
        let key: u32 = Self::key_of(&entry.selector);
        self.kept.insert(key, Kept::Entry { verifier: entry.verifier, estopped: entry.estopped });
    }

    /// Sets up a router at `address`, owned by `authority`, with no verifier registered.
    ///
    /// Whoever sets the router up becomes its owner, so this must be the identity that the
    /// deployment expects: `initial_owner`.
    pub fn initialize(address: Identity, authority: Identity, initial_owner: Identity) -> (result:
        Result<Router, RouterError>)
        ensures
            match result {
                Ok(router) => authority == initial_owner && router@ == RouterView::initial(
                    address,
                    authority,
                ),
                Err(error) => authority != initial_owner && error
                    == RouterError::InvalidInitializationAuthority,
            },
    {
        if authority != initial_owner {
            return Err(RouterError::InvalidInitializationAuthority);
        }
        let router = Router {
            address,
            account: VerifierRouter { ownership: Ownership::new(authority) },
            kept: HashMap::new(),
        };
        proof {
            assert(entries_of(router.kept@) =~= Map::<Selector, VerifierEntry>::empty());
            assert(retired_of(router.kept@) =~= Set::<Selector>::empty());
        }
        Ok(router)
    }

    /// The address of the router.
    pub fn address(&self) -> (address: Identity)
        ensures
            address == self@.address,
    {
        self.address
    }

    /// The record of the router.
    pub fn account(&self) -> (account: VerifierRouter)
        ensures
            account.ownership == self@.ownership,
    {
        self.account
    }

    /// The entry that is kept under `selector`, if there is one.
    pub fn entry(&self, selector: &Selector) -> (entry: Option<VerifierEntry>)
        ensures
            entry == if self@.entries.contains_key(*selector) {
                Some(self@.entries[*selector])
            } else {
                None
            },
    {
        proof {
            self.lemma_view_wf();
        }
        match self.slot(selector) {
            Slot::Occupied(entry) => Some(entry),
            _ => None,
        }
    }

    /// Registers `verifier` under `selector`. See [`RouterView::register`].
    pub fn register(
        &mut self,
        caller: &Identity,
        selector: Selector,
        verifier: Identity,
    ) -> (result: Result<(), RouterError>)
        ensures
            match old(self)@.register(*caller, selector, verifier) {
                Ok(after) => result == Ok::<(), RouterError>(()) && final(self)@ == after,
                Err(error) => {
                    &&& result == Err::<(), RouterError>(error)
                    &&& final(self)@ == old(self)@
                },
            },
    {
        proof {
            self.lemma_view_wf();
        }
        let slot = self.slot(&selector);
        match register_verifier(&self.account.ownership, caller, &slot, selector, verifier) {
            Err(error) => Err(error),
            Ok(entry) => {
                self.put(entry);
                proof {
                    assert(old(self)@.retired.remove(selector) =~= old(self)@.retired);
                }
                Ok(())
            },
        }
    }

    /// Removes the stopped entry of `selector` and retires the selector. See
    /// [`RouterView::remove`].
    pub fn remove(&mut self, caller: &Identity, selector: Selector) -> (result: Result<
        (),
        RouterError,
    >)
        ensures
            match old(self)@.remove(*caller, selector) {
                Ok(after) => result == Ok::<(), RouterError>(()) && final(self)@ == after,
                Err(error) => {
                    &&& result == Err::<(), RouterError>(error)
                    &&& final(self)@ == old(self)@
                },
            },
    {
        let slot = self.slot(&selector);
        match remove_verifier(&self.account.ownership, caller, &slot, selector) {
            Err(error) => Err(error),
            Ok(()) => {
                proof {
                    lemma_keep_retired(self.kept@, selector);
                }
                let key: u32 = Self::key_of(&selector);
                self.kept.insert(key, Kept::Retired);
                Ok(())
            },
        }
    }

    /// Gives the call by which a proof for `selector` is dispatched: to the verifier that is
    /// active under the selector, with the proof and the inputs as they are. The answer of
    /// that verifier is the verdict on the proof. See [`RouterView::dispatch`].
    pub fn dispatch(&self, selector: Selector, proof: Proof, inputs: PublicInputs) -> (result:
        Result<VerifierCall, RouterError>)
        ensures
            result == self@.dispatch(selector, proof, inputs),
    {
        let slot = self.slot(&selector);
        dispatch(&slot, selector, proof, inputs)
    }

    /// Takes out the records for an emergency stop of the active verifier of `selector`
    /// that `authority` asks for.
    pub fn emergency_stop_accounts(&self, authority: &Identity, selector: Selector) -> (result:
        Result<EmergencyStop, RouterError>)
        ensures
            match result {
                Ok(ctx) => self@.is_active(selector) && ctx == (EmergencyStop {
                    router_address: self@.address,
                    router: VerifierRouter { ownership: self@.ownership },
                    verifier_entry: self@.entries[selector],
                    authority: *authority,
                    verifier_program: self@.entries[selector].verifier,
                }),
                Err(error) => !self@.is_active(selector) && error
                    == RouterError::SelectorDeactivated,
            },
    {
        match self.entry(&selector) {
            Some(entry) => {
                if entry.estopped {
                    Err(RouterError::SelectorDeactivated)
                } else {
                    Ok(
                        EmergencyStop {
                            router_address: self.address,
                            router: self.account,
                            verifier_entry: entry,
                            authority: *authority,
                            verifier_program: entry.verifier,
                        },
                    )
                }
            },
            None => Err(RouterError::SelectorDeactivated),
        }
    }

    /// Stops the verifier of `selector` by decision of the owner. This cannot be undone.
    /// See [`RouterView::stop_by_owner`].
    pub fn stop_by_owner(&mut self, authority: &Identity, selector: Selector) -> (result: Result<
        EmergencyStopEvent,
        RouterError,
    >)
        ensures
            match old(self)@.stop_by_owner(*authority, selector) {
                Ok(after) => {
                    &&& result is Ok
                    &&& old(self)@.announces(
                        result->Ok_0,
                        selector,
                        *authority,
                        owner_revocation_reason(),
                    )
                    &&& final(self)@ == after
                },
                Err(error) => {
                    &&& result == Err::<EmergencyStopEvent, RouterError>(error)
                    &&& final(self)@ == old(self)@
                },
            },
    {
        proof {
            self.lemma_view_wf();
        }
        match self.account.ownership.assert_owner(authority) {
            Err(error) => {
                return Err(RouterError::Unauthorized(error));
            },
            Ok(()) => {},
        }
        let mut ctx = match self.emergency_stop_accounts(authority, selector) {
            Err(error) => {
                return Err(error);
            },
            Ok(ctx) => ctx,
        };
        match emergency_stop_by_owner(&mut ctx, selector) {
            Err(error) => Err(error),
            Ok(event) => {
                self.put(ctx.verifier_entry);
                proof {
                    assert(old(self)@.retired.remove(selector) =~= old(self)@.retired);
                }
                Ok(event)
            },
        }
    }

    /// Gives the call that puts a proof of exploit against the verifier of `selector` to
    /// the test: the proof is dispatched to that verifier with the null image ID and the
    /// null journal digest. The answer is for [`Router::stop_with_proof`].
    pub fn proof_of_exploit_call(&self, selector: Selector, proof: Proof) -> (result: Result<
        VerifierCall,
        RouterError,
    >)
        ensures
            exists|inputs: PublicInputs|
                inputs.is_null() && result == #[trigger] self@.dispatch(selector, proof, inputs),
    {
        self.dispatch(selector, proof, PublicInputs::null())
    }

    /// Stops the verifier of `selector` on a proof of exploit that the verifier has
    /// answered with `verdict`. Anyone may do so: `authority` is who did, for the record.
    /// This cannot be undone. See [`RouterView::stop_with_proof`].
    pub fn stop_with_proof(
        &mut self,
        authority: &Identity,
        selector: Selector,
        verdict: Verdict,
    ) -> (result: Result<EmergencyStopEvent, RouterError>)
        ensures
            match old(self)@.stop_with_proof(selector, verdict) {
                Ok(after) => {
                    &&& result is Ok
                    &&& old(self)@.announces(result->Ok_0, selector, *authority, exploit_reason())
                    &&& final(self)@ == after
                },
                Err(error) => {
                    &&& result == Err::<EmergencyStopEvent, RouterError>(error)
                    &&& final(self)@ == old(self)@
                },
            },
    {
        proof {
            self.lemma_view_wf();
        }
        let mut ctx = match self.emergency_stop_accounts(authority, selector) {
            Err(error) => {
                return Err(error);
            },
            Ok(ctx) => ctx,
        };
        match emergency_stop_with_proof(&mut ctx, selector, verdict) {
            Err(error) => Err(error),
            Ok(event) => {
                self.put(ctx.verifier_entry);
                proof {
                    assert(old(self)@.retired.remove(selector) =~= old(self)@.retired);
                }
                Ok(event)
            },
        }
    }

    /// Proposes `new_owner` as the next owner. See [`RouterView::propose_transfer`].
    pub fn propose_transfer(&mut self, caller: &Identity, new_owner: Identity) -> (result: Result<
        (),
        RouterError,
    >)
        ensures
            match old(self)@.propose_transfer(*caller, new_owner) {
                Ok(after) => result == Ok::<(), RouterError>(()) && final(self)@ == after,
                Err(error) => {
                    &&& result == Err::<(), RouterError>(error)
                    &&& final(self)@ == old(self)@
                },
            },
    {
        let result = self.account.ownership.propose_transfer(caller, new_owner);
        match result {
            Ok(()) => Ok(()),
            Err(error) => Err(RouterError::Unauthorized(error)),
        }
    }

    /// Accepts the pending transfer of ownership. See [`RouterView::accept_transfer`].
    pub fn accept_transfer(&mut self, caller: &Identity) -> (result: Result<(), RouterError>)
        ensures
            match old(self)@.accept_transfer(*caller) {
                Ok(after) => result == Ok::<(), RouterError>(()) && final(self)@ == after,
                Err(error) => {
                    &&& result == Err::<(), RouterError>(error)
                    &&& final(self)@ == old(self)@
                },
            },
    {
        let result = self.account.ownership.accept_transfer(caller);
        match result {
            Ok(()) => Ok(()),
            Err(error) => Err(RouterError::Unauthorized(error)),
        }
    }
}

} // verus!
