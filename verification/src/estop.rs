//! The emergency stop: the irreversible disabling of one verifier.
//!
//! There are two ways to stop a verifier. The owner of the router may revoke it. And anyone
//! may stop it by showing that it is broken: by a proof that the verifier accepts for the
//! null image ID and the null journal digest, which no sound verifier accepts.
//!
//! Both ways work on an [`EmergencyStop`]: the records that the operation touches, taken
//! from storage. A stop that succeeds marks the entry in it as stopped and yields the event
//! to publish; the caller writes the entry back. A stop that fails leaves the records as
//! they were.

use crate::bytes::bytes_equal;
use crate::error::RouterError;
use crate::identity::Identity;
use crate::call::{PublicInputs, Verdict, VerifierCall};
use crate::registry::{dispatching, Slot};
use crate::ownership::AuthorizationError;
use crate::seal::Proof;
use crate::selector::Selector;
use crate::state::{VerifierEntry, VerifierRouter};
use vstd::prelude::*;

verus! {

/// The records and the parties of an emergency stop.
#[derive(Clone, Copy, Debug, PartialEq, Eq)]
pub struct EmergencyStop {
    /// The address of the router.
    pub router_address: Identity,
    /// The record of the router.
    pub router: VerifierRouter,
    /// The entry of the verifier that is to be stopped.
    pub verifier_entry: VerifierEntry,
    /// Who asks for the stop: the owner of the router, or whoever presents the proof.
    pub authority: Identity,
    /// The verifier module that was supplied with the request.
    pub verifier_program: Identity,
}

/// The notice that a verifier has been stopped.
#[derive(Clone, Debug, PartialEq, Eq)]
pub struct EmergencyStopEvent {
    /// The address of the router.
    pub router: Identity,
    /// The selector of the verifier.
    pub selector: Selector,
    /// The verifier module.
    pub verifier: Identity,
    /// Who stopped it.
    pub triggered_by: Identity,
    /// Why it was stopped.
    pub reason: String,
}

/// The reason given when the owner stops a verifier.
pub open spec fn owner_revocation_reason() -> Seq<char> {
    "Owner has revoked the verifier."@
}

/// The reason given when a verifier is stopped by a proof of exploit.
pub open spec fn exploit_reason() -> Seq<char> {
    "Invalid Proof was demonstrated, verifier compromised."@
}

impl EmergencyStop {
    /// What is wrong with these records for a stop of `selector`, if anything: the entry
    /// must be the one of `selector`, and the module supplied must be the one it records.
    /// Whether the entry has been stopped before is not asked.
    pub open spec fn account_error(self, selector: Selector) -> Option<RouterError> {
        if self.verifier_entry.selector != selector {
            Some(RouterError::SelectorDeactivated)
        } else if self.verifier_program != self.verifier_entry.verifier {
            Some(RouterError::InvalidVerifier)
        } else {
            None
        }
    }

    /// Why the owner's stop of `selector` is refused, if it is.
    pub open spec fn owner_stop_error(self, selector: Selector) -> Option<RouterError> {
        if self.account_error(selector) is Some {
            self.account_error(selector)
        } else if !self.router.ownership.is_owner(self.authority) {
            Some(RouterError::Unauthorized(AuthorizationError::NotOwner))
        } else {
            None
        }
    }

    /// Why the stop of `selector` by a proof of exploit is refused, if it is, when the
    /// verifier has answered the proof with `verdict`.
    pub open spec fn proof_stop_error(self, selector: Selector, verdict: Verdict) -> Option<
        RouterError,
    > {
        if self.account_error(selector) is Some {
            self.account_error(selector)
        } else {
            match verdict {
                Verdict::Accepted => None,
                Verdict::Rejected(code) => Some(RouterError::VerifierRejected(code)),
            }
        }
    }

    /// These records with the entry stopped.
    pub open spec fn stopped(self) -> EmergencyStop {
        EmergencyStop {
            router_address: self.router_address,
            router: self.router,
            verifier_entry: self.verifier_entry.stopped(),
            authority: self.authority,
            verifier_program: self.verifier_program,
        }
    }

    /// Whether `event` is the notice of a stop of `selector` on these records for `reason`.
    pub open spec fn announces(
        self,
        event: EmergencyStopEvent,
        selector: Selector,
        reason: Seq<char>,
    ) -> bool {
        &&& event.router == self.router_address
        &&& event.selector == selector
        &&& event.verifier == self.verifier_entry.verifier
        &&& event.triggered_by == self.authority
        &&& event.reason@ == reason
    }

    /// Checks the records against the request.
    pub fn check_accounts(&self, selector: &Selector) -> (result: Result<(), RouterError>)
        ensures
            match self.account_error(*selector) {
                Some(error) => result == Err::<(), RouterError>(error),
                None => result == Ok::<(), RouterError>(()),
            },
    {
        if !bytes_equal(&self.verifier_entry.selector, selector) {
            Err(RouterError::SelectorDeactivated)
        } else if self.verifier_program != self.verifier_entry.verifier {
            Err(RouterError::InvalidVerifier)
        } else {
            Ok(())
        }
    }
}

/// Stops a verifier by decision of the owner. This cannot be undone.
///
/// Succeeds whenever the records fit the request and `ctx.authority` owns the router, also
/// on an entry that is stopped already: it stays stopped, and the event is given again.
pub fn emergency_stop_by_owner(ctx: &mut EmergencyStop, selector: Selector) -> (result: Result<
    EmergencyStopEvent,
    RouterError,
>)
    ensures
        match old(ctx).owner_stop_error(selector) {
            Some(error) => result == Err::<EmergencyStopEvent, RouterError>(error) && *final(ctx)
                == *old(ctx),
            None => {
                &&& result is Ok
                &&& old(ctx).announces(result->Ok_0, selector, owner_revocation_reason())
                &&& *final(ctx) == old(ctx).stopped()
            },
        },
{
    match ctx.check_accounts(&selector) {
        Err(error) => {
            return Err(error);
        },
        Ok(()) => {},
    }
    match ctx.router.ownership.assert_owner(&ctx.authority) {
        Err(error) => {
            return Err(RouterError::Unauthorized(error));
        },
        Ok(()) => {},
    }
    ctx.verifier_entry.estopped = true;
    Ok(
        EmergencyStopEvent {
            router: ctx.router_address,
            selector,
            verifier: ctx.verifier_entry.verifier,
            triggered_by: ctx.authority,
            reason: "Owner has revoked the verifier.".to_string(),
        },
    )
}

/// The call that puts a proof of exploit to the test: the proof goes to the verifier of the
/// entry, with the null image ID and the null journal digest. There is a call whenever the
/// records fit the request, be the entry stopped or not.
pub fn proof_of_exploit_call(ctx: &EmergencyStop, selector: Selector, proof: Proof) -> (result:
    Result<VerifierCall, RouterError>)
    ensures
        match ctx.account_error(selector) {
            Some(error) => result == Err::<VerifierCall, RouterError>(error),
            None => {
                &&& result is Ok
                &&& result->Ok_0.verifier == ctx.verifier_program
                &&& result->Ok_0.proof == proof
                &&& result->Ok_0.inputs.is_null()
            },
        },
{
    match ctx.check_accounts(&selector) {
        Err(error) => Err(error),
        Ok(()) => Ok(
            VerifierCall { verifier: ctx.verifier_program, proof, inputs: PublicInputs::null() },
        ),
    }
}

/// Stops a verifier that has been shown to be broken. This cannot be undone.
///
/// Anyone may call this. `verdict` is the answer of the verifier to the call that
/// [`proof_of_exploit_call`] gives. If the verifier accepted, it is broken, and it is
/// stopped. If it aborted, the stop is aborted with it and nothing changes.
pub fn emergency_stop_with_proof(
    ctx: &mut EmergencyStop,
    selector: Selector,
    verdict: Verdict,
) -> (result: Result<EmergencyStopEvent, RouterError>)
    ensures
        match old(ctx).proof_stop_error(selector, verdict) {
            Some(error) => result == Err::<EmergencyStopEvent, RouterError>(error) && *final(ctx)
                == *old(ctx),
            None => {
                &&& result is Ok
                &&& old(ctx).announces(result->Ok_0, selector, exploit_reason())
                &&& *final(ctx) == old(ctx).stopped()
            },
        },
{
    match ctx.check_accounts(&selector) {
        Err(error) => {
            return Err(error);
        },
        Ok(()) => {},
    }
    match verdict {
        Verdict::Rejected(code) => {
            return Err(RouterError::VerifierRejected(code));
        },
        Verdict::Accepted => {},
    }
    ctx.verifier_entry.estopped = true;
    Ok(
        EmergencyStopEvent {
            router: ctx.router_address,
            selector,
            verifier: ctx.verifier_entry.verifier,
            triggered_by: ctx.authority,
            reason: "Invalid Proof was demonstrated, verifier compromised.".to_string(),
        },
    )
}

/// A stop closes the dispatch gate: once a stop has succeeded on these records, there is no
/// call for a proof that is sent to the selector of the entry, whatever the proof and the
/// inputs.
pub proof fn lemma_stop_closes_dispatch(
    ctx: EmergencyStop,
    selector: Selector,
    proof: Proof,
    inputs: PublicInputs,
)
    ensures
        ctx.stopped().verifier_entry.estopped,
        dispatching(Slot::Occupied(ctx.stopped().verifier_entry), selector, proof, inputs) == Err::<
            VerifierCall,
            RouterError,
        >(RouterError::SelectorDeactivated),
{
}

/// A proposed owner has no authority before the transfer is accepted: on records that fit
/// the request, the owner's stop asked for by the pending owner is refused by the ownership
/// guard.
pub proof fn lemma_pending_owner_cannot_stop(ctx: EmergencyStop, selector: Selector)
    requires
        ctx.account_error(selector) is None,
        ctx.router.ownership.pending_owner == Some(ctx.authority),
        ctx.authority != ctx.router.ownership.owner,
    ensures
        ctx.owner_stop_error(selector) == Some(
            RouterError::Unauthorized(AuthorizationError::NotOwner),
        ),
{
}

} // verus!
