//! The router as a state machine.
//!
//! [`RouterView`] is what a router is, mathematically: its owner, the entries of the
//! registered verifiers by selector, and the selectors whose entries have been removed. Each
//! operation of the router is a function from a view to the view after it, or to the error
//! with which it is refused. The laws of the router are proved here, of every view and of
//! every sequence of operations.
//!
//! An entry goes one way only: from active to stopped, and from stopped to removed. A
//! selector whose entry has been removed stays retired, so that a stopped verifier cannot
//! come back under its selector.

use crate::error::RouterError;
use crate::estop::EmergencyStopEvent;
use crate::identity::Identity;
use crate::call::{PublicInputs, Verdict, VerifierCall};
use crate::ownership::{AuthorizationError, Ownership};
use crate::registry::{dispatching, registration, removal, Slot};
use crate::seal::Proof;
use crate::selector::Selector;
use crate::state::VerifierEntry;
use vstd::prelude::*;

verus! {

/// The state of a router.
pub struct RouterView {
    /// The address of the router.
    pub address: Identity,
    /// Who owns the router, and to whom it is being handed.
    pub ownership: Ownership,
    /// The entries of the registered verifiers, by selector.
    pub entries: Map<Selector, VerifierEntry>,
    /// The selectors whose entries have been removed.
    pub retired: Set<Selector>,
}

/// An operation that changes a router, with its arguments.
pub enum Operation {
    Register { caller: Identity, selector: Selector, verifier: Identity },
    Remove { caller: Identity, selector: Selector },
    StopByOwner { authority: Identity, selector: Selector },
    StopWithProof { selector: Selector, verdict: Verdict },
    ProposeTransfer { caller: Identity, new_owner: Identity },
    AcceptTransfer { caller: Identity },
}

impl RouterView {
    /// The state of a router that has just been initialized.
    pub open spec fn initial(address: Identity, owner: Identity) -> RouterView {
        RouterView {
            address,
            ownership: Ownership { owner, pending_owner: None },
            entries: Map::empty(),
            retired: Set::empty(),
        }
    }

    /// Every entry is filed under its own selector, and no selector is both filed and
    /// retired.
    pub open spec fn wf(self) -> bool {
        forall|selector: Selector| #[trigger]
            self.entries.contains_key(selector) ==> self.entries[selector].selector == selector
                && !self.retired.contains(selector)
    }

    /// What is kept for the selector.
    pub open spec fn slot(self, selector: Selector) -> Slot {
        if self.retired.contains(selector) {
            Slot::Retired
        } else if self.entries.contains_key(selector) {
            Slot::Occupied(self.entries[selector])
        } else {
            Slot::Vacant
        }
    }

    /// Whether a verifier is registered under the selector and has not been stopped.
    pub open spec fn is_active(self, selector: Selector) -> bool {
        self.entries.contains_key(selector) && !self.entries[selector].estopped
    }

    /// Whether the verifier of the selector has been stopped, be its entry kept or removed.
    pub open spec fn is_stopped(self, selector: Selector) -> bool {
        self.retired.contains(selector) || (self.entries.contains_key(selector)
            && self.entries[selector].estopped)
    }

    /// Whether `event` is the notice that `triggered_by` has stopped the verifier of
    /// `selector` in this state for `reason`.
    pub open spec fn announces(
        self,
        event: EmergencyStopEvent,
        selector: Selector,
        triggered_by: Identity,
        reason: Seq<char>,
    ) -> bool {
        &&& event.router == self.address
        &&& event.selector == selector
        &&& event.verifier == self.entries[selector].verifier
        &&& event.triggered_by == triggered_by
        &&& event.reason@ == reason
    }

    /// This state with other entries.
    pub open spec fn with_entries(self, entries: Map<Selector, VerifierEntry>) -> RouterView {
        RouterView {
            address: self.address,
            ownership: self.ownership,
            entries,
            retired: self.retired,
        }
    }

    /// This state with another ownership.
    pub open spec fn with_ownership(self, ownership: Ownership) -> RouterView {
        RouterView {
            address: self.address,
            ownership,
            entries: self.entries,
            retired: self.retired,
        }
    }

    /// This state with the entry of an active selector stopped.
    pub open spec fn with_stopped(self, selector: Selector) -> RouterView {
        self.with_entries(self.entries.insert(selector, self.entries[selector].stopped()))
    }

    /// Registering `verifier` under `selector`, as `caller`: the slot of the selector takes
    /// the entry that [`registration`] gives.
    pub open spec fn register(
        self,
        caller: Identity,
        selector: Selector,
        verifier: Identity,
    ) -> Result<RouterView, RouterError> {
        match registration(self.ownership, caller, self.slot(selector), selector, verifier) {
            Ok(entry) => Ok(self.with_entries(self.entries.insert(selector, entry))),
            Err(error) => Err(error),
        }
    }

    /// Removing the entry of `selector`, as `caller`: where [`removal`] allows it, the
    /// entry goes and the selector is retired.
    pub open spec fn remove(self, caller: Identity, selector: Selector) -> Result<
        RouterView,
        RouterError,
    > {
        match removal(self.ownership, caller, self.slot(selector), selector) {
            Ok(()) => Ok(
                RouterView {
                    address: self.address,
                    ownership: self.ownership,
                    entries: self.entries.remove(selector),
                    retired: self.retired.insert(selector),
                },
            ),
            Err(error) => Err(error),
        }
    }

    /// Stopping the verifier of `selector` by decision of `authority`.
    ///
    /// Only the owner may do so, and only an active verifier can be stopped.
    pub open spec fn stop_by_owner(self, authority: Identity, selector: Selector) -> Result<
        RouterView,
        RouterError,
    > {
        if !self.ownership.is_owner(authority) {
            Err(RouterError::Unauthorized(AuthorizationError::NotOwner))
        } else if !self.is_active(selector) {
            Err(RouterError::SelectorDeactivated)
        } else {
            Ok(self.with_stopped(selector))
        }
    }

    /// Stopping the verifier of `selector` by a proof of exploit that the verifier has
    /// answered with `verdict`.
    ///
    /// Only an active verifier can be stopped. If the verifier aborted, the stop is aborted
    /// with it.
    pub open spec fn stop_with_proof(self, selector: Selector, verdict: Verdict) -> Result<
        RouterView,
        RouterError,
    > {
        if !self.is_active(selector) {
            Err(RouterError::SelectorDeactivated)
        } else {
            match verdict {
                Verdict::Rejected(code) => Err(RouterError::VerifierRejected(code)),
                Verdict::Accepted => Ok(self.with_stopped(selector)),
            }
        }
    }

    /// Proposing `new_owner` as the next owner, as `caller`.
    pub open spec fn propose_transfer(self, caller: Identity, new_owner: Identity) -> Result<
        RouterView,
        RouterError,
    > {
        if !self.ownership.is_owner(caller) {
            Err(RouterError::Unauthorized(AuthorizationError::NotOwner))
        } else {
            Ok(self.with_ownership(self.ownership.proposed(new_owner)))
        }
    }

    /// Accepting the pending transfer, as `caller`.
    pub open spec fn accept_transfer(self, caller: Identity) -> Result<RouterView, RouterError> {
        match self.ownership.accepted(caller) {
            Ok(ownership) => Ok(self.with_ownership(ownership)),
            Err(error) => Err(RouterError::Unauthorized(error)),
        }
    }

    /// The call by which a proof for `selector` is dispatched, or the refusal: what
    /// [`dispatching`] gives for the slot of the selector.
    pub open spec fn dispatch(
        self,
        selector: Selector,
        proof: Proof,
        inputs: PublicInputs,
    ) -> Result<VerifierCall, RouterError> {
        dispatching(self.slot(selector), selector, proof, inputs)
    }

    /// What an operation leads to.
    pub open spec fn outcome(self, operation: Operation) -> Result<RouterView, RouterError> {
        match operation {
            Operation::Register { caller, selector, verifier } => self.register(
                caller,
                selector,
                verifier,
            ),
            Operation::Remove { caller, selector } => self.remove(caller, selector),
            Operation::StopByOwner { authority, selector } => self.stop_by_owner(
                authority,
                selector,
            ),
            Operation::StopWithProof { selector, verdict } => self.stop_with_proof(
                selector,
                verdict,
            ),
            Operation::ProposeTransfer { caller, new_owner } => self.propose_transfer(
                caller,
                new_owner,
            ),
            Operation::AcceptTransfer { caller } => self.accept_transfer(caller),
        }
    }

    /// The state after an operation: a refused operation leaves the state as it was.
    pub open spec fn after(self, operation: Operation) -> RouterView {
        match self.outcome(operation) {
            Ok(state) => state,
            Err(_) => self,
        }
    }

    /// The state after a sequence of operations, in order.
    pub open spec fn after_all(self, operations: Seq<Operation>) -> RouterView
        decreases operations.len(),
    {
        if operations.len() == 0 {
            self
        } else {
            self.after_all(operations.drop_last()).after(operations.last())
        }
    }
}

/// Operations keep a state well-formed.
pub proof fn lemma_operation_preserves_wf(state: RouterView, operation: Operation)
    requires
        state.wf(),
    ensures
        state.after(operation).wf(),
{
}

/// Sequences of operations keep a state well-formed.
pub proof fn lemma_operations_preserve_wf(state: RouterView, operations: Seq<Operation>)
    requires
        state.wf(),
    ensures
        state.after_all(operations).wf(),
    decreases operations.len(),
{
    if operations.len() > 0 {
        lemma_operations_preserve_wf(state, operations.drop_last());
        lemma_operation_preserves_wf(state.after_all(operations.drop_last()), operations.last());
    }
}

/// The emergency stop is monotonic: no operation activates a selector that has been
/// stopped, and no operation clears the stop of an entry. An entry that is stopped stays
/// stopped for as long as it is there, and once it is removed the selector stays retired.
pub proof fn lemma_stop_survives_operation(
    state: RouterView,
    operation: Operation,
    selector: Selector,
)
    requires
        state.wf(),
        state.is_stopped(selector),
    ensures
        state.after(operation).is_stopped(selector),
        !state.after(operation).is_active(selector),
        state.after(operation).entries.contains_key(selector) ==> state.after(
            operation,
        ).entries[selector].estopped,
{
    lemma_operation_preserves_wf(state, operation);
}

/// The emergency stop is permanent: once a selector has been stopped, it is stopped after
/// every sequence of operations, and never active again.
pub proof fn lemma_stop_is_permanent(
    state: RouterView,
    operations: Seq<Operation>,
    selector: Selector,
)
    requires
        state.wf(),
        state.is_stopped(selector),
    ensures
        state.after_all(operations).is_stopped(selector),
        !state.after_all(operations).is_active(selector),
        state.after_all(operations).entries.contains_key(selector) ==> state.after_all(
            operations,
        ).entries[selector].estopped,
    decreases operations.len(),
{
    if operations.len() > 0 {
        let before = state.after_all(operations.drop_last());
        lemma_stop_is_permanent(state, operations.drop_last(), selector);
        lemma_operations_preserve_wf(state, operations.drop_last());
        lemma_stop_survives_operation(before, operations.last(), selector);
    } else {
        assert(!state.is_active(selector));
    }
}

/// Dispatch is gated: for a selector that has been stopped, and for one that has no entry,
/// dispatch fails with `SelectorDeactivated` and there is no call to a verifier.
pub proof fn lemma_dispatch_is_gated(
    state: RouterView,
    selector: Selector,
    proof: Proof,
    inputs: PublicInputs,
)
    requires
        state.is_stopped(selector) || !state.entries.contains_key(selector),
    ensures
        state.dispatch(selector, proof, inputs) == Err::<VerifierCall, RouterError>(
            RouterError::SelectorDeactivated,
        ),
{
}

/// The proof of exploit is atomic: if the verifier aborts, the stop is refused and the
/// state after it is the state before it.
pub proof fn lemma_rejected_proof_changes_nothing(state: RouterView, selector: Selector, code: u64)
    ensures
        state.stop_with_proof(selector, Verdict::Rejected(code)) is Err,
        state.after(Operation::StopWithProof { selector, verdict: Verdict::Rejected(code) })
            == state,
{
}

/// Only the pending owner can accept: from anyone else the acceptance is refused, and the
/// owner stays who it was.
pub proof fn lemma_accept_needs_pending_owner(state: RouterView, caller: Identity)
    requires
        state.ownership.pending_owner != Some(caller),
    ensures
        state.accept_transfer(caller) is Err,
        state.accept_transfer(caller)->Err_0.is_authorization_error(),
        state.after(Operation::AcceptTransfer { caller }) == state,
{
}

/// Proposals do not stack: after two proposals by the owner, the state is as after the
/// second alone.
pub proof fn lemma_proposal_overwrites(
    state: RouterView,
    caller: Identity,
    first: Identity,
    second: Identity,
)
    ensures
        state.after(Operation::ProposeTransfer { caller, new_owner: first }).after(
            Operation::ProposeTransfer { caller, new_owner: second },
        ) == state.after(Operation::ProposeTransfer { caller, new_owner: second }),
{
}

} // verus!
