use verifier_router::router::default_initial_owner;
use verifier_router::{
    encode_seal_with_selector, AuthorizationError, Identity, Proof, PublicInputs, Router,
    RouterError, Verdict, VerifierCall, VerifierEntry,
};
use verifier_router::registry::Slot;

const SELECTOR: [u8; 4] = [0xaa, 0xbb, 0xcc, 0xdd];
const OTHER: [u8; 4] = [0xdd, 0xcc, 0xbb, 0xaa];

fn id(n: u8) -> Identity {
    Identity::new([n; 32])
}

fn owner() -> Identity {
    id(1)
}

fn v1() -> Identity {
    id(50)
}

fn v2() -> Identity {
    id(51)
}

fn new_router() -> Router {
    Router::initialize(id(100), owner(), owner()).unwrap()
}

fn sample_proof() -> Proof {
    Proof { pi_a: [1u8; 64], pi_b: [2u8; 128], pi_c: [3u8; 64] }
}

fn inputs() -> PublicInputs {
    PublicInputs { image_id: [8u8; 32], journal_digest: [9u8; 32] }
}

#[test]
fn default_initial_owner_is_all_zero() {
    assert_eq!(default_initial_owner(), Identity::new([0u8; 32]));
}

#[test]
fn initialize_sets_owner_and_empty_registry() {
    let router = new_router();
    assert_eq!(router.address(), id(100));
    assert_eq!(router.account().ownership.owner, owner());
    assert_eq!(router.account().ownership.pending_owner, None);
    assert_eq!(router.entry(&SELECTOR), None);
    assert_eq!(router.slot(&SELECTOR), Slot::Vacant);
}

#[test]
fn initialize_by_unexpected_authority_fails() {
    let result = Router::initialize(id(100), id(2), owner());
    assert_eq!(result.err(), Some(RouterError::InvalidInitializationAuthority));
}

#[test]
fn register_then_dispatch_reaches_verifier() {
    let mut router = new_router();
    assert_eq!(router.register(&owner(), SELECTOR, v1()), Ok(()));
    assert_eq!(router.entry(&SELECTOR), Some(VerifierEntry::new(SELECTOR, v1())));
    assert_eq!(
        router.dispatch(SELECTOR, sample_proof(), inputs()),
        Ok(VerifierCall { verifier: v1(), proof: sample_proof(), inputs: inputs() })
    );
}

#[test]
fn owner_stop_scenario() {
    let mut router = new_router();
    router.register(&owner(), SELECTOR, v1()).unwrap();
    assert_eq!(router.dispatch(SELECTOR, sample_proof(), inputs()).unwrap().verifier, v1());
    let event = router.stop_by_owner(&owner(), SELECTOR).unwrap();
    assert_eq!(event.router, id(100));
    assert_eq!(event.selector, SELECTOR);
    assert_eq!(event.verifier, v1());
    assert_eq!(event.triggered_by, owner());
    assert_eq!(event.reason, "Owner has revoked the verifier.");
    assert_eq!(
        router.entry(&SELECTOR),
        Some(VerifierEntry { selector: SELECTOR, verifier: v1(), estopped: true })
    );
    assert_eq!(
        router.dispatch(SELECTOR, sample_proof(), inputs()),
        Err(RouterError::SelectorDeactivated)
    );
}

#[test]
fn dispatch_of_encoded_seal() {
    let mut router = new_router();
    router.register(&owner(), SELECTOR, v1()).unwrap();
    let seal = encode_seal_with_selector(&[5u8; 256], SELECTOR);
    let call = router.dispatch(seal.selector, seal.proof, inputs()).unwrap();
    assert_eq!(call.verifier, v1());
    assert_eq!(call.proof, seal.proof);
    assert_eq!(call.inputs, inputs());
}

#[test]
fn dispatch_on_unregistered_selector_fails() {
    let mut router = new_router();
    assert_eq!(
        router.dispatch(SELECTOR, sample_proof(), inputs()),
        Err(RouterError::SelectorDeactivated)
    );
    router.register(&owner(), SELECTOR, v1()).unwrap();
    assert_eq!(
        router.dispatch(OTHER, sample_proof(), inputs()),
        Err(RouterError::SelectorDeactivated)
    );
}

#[test]
fn selectors_are_told_apart_by_every_byte() {
    let mut router = new_router();
    router.register(&owner(), [0, 0, 0, 1], v1()).unwrap();
    router.register(&owner(), [0, 0, 1, 0], v2()).unwrap();
    router.register(&owner(), [1, 0, 0, 0], id(52)).unwrap();
    assert_eq!(router.entry(&[0, 0, 0, 1]).unwrap().verifier, v1());
    assert_eq!(router.entry(&[0, 0, 1, 0]).unwrap().verifier, v2());
    assert_eq!(router.entry(&[1, 0, 0, 0]).unwrap().verifier, id(52));
    assert_eq!(router.entry(&[0, 1, 0, 0]), None);
    assert_eq!(router.entry(&[0xff, 0xff, 0xff, 0xff]), None);
}

#[test]
fn register_by_stranger_fails() {
    let mut router = new_router();
    assert_eq!(
        router.register(&id(2), SELECTOR, v1()),
        Err(RouterError::VerifierInvalidAuthority)
    );
    assert_eq!(router.entry(&SELECTOR), None);
}

#[test]
fn register_other_verifier_on_active_selector_fails() {
    let mut router = new_router();
    router.register(&owner(), SELECTOR, v1()).unwrap();
    assert_eq!(
        router.register(&owner(), SELECTOR, v2()),
        Err(RouterError::DuplicateActiveSelector)
    );
    assert_eq!(router.entry(&SELECTOR), Some(VerifierEntry::new(SELECTOR, v1())));
}

#[test]
fn register_same_verifier_again_changes_nothing() {
    let mut router = new_router();
    router.register(&owner(), SELECTOR, v1()).unwrap();
    assert_eq!(router.register(&owner(), SELECTOR, v1()), Ok(()));
    assert_eq!(router.entry(&SELECTOR), Some(VerifierEntry::new(SELECTOR, v1())));
}

#[test]
fn stopped_selector_cannot_be_registered_again() {
    let mut router = new_router();
    router.register(&owner(), SELECTOR, v1()).unwrap();
    router.stop_by_owner(&owner(), SELECTOR).unwrap();
    assert_eq!(router.register(&owner(), SELECTOR, v1()), Err(RouterError::SelectorDeactivated));
    assert_eq!(router.register(&owner(), SELECTOR, v2()), Err(RouterError::SelectorDeactivated));
    assert!(router.entry(&SELECTOR).unwrap().estopped);
    assert_eq!(router.register(&owner(), OTHER, v2()), Ok(()));
    assert_eq!(router.dispatch(OTHER, sample_proof(), inputs()).unwrap().verifier, v2());
}

#[test]
fn stop_by_stranger_fails() {
    let mut router = new_router();
    router.register(&owner(), SELECTOR, v1()).unwrap();
    assert_eq!(
        router.stop_by_owner(&id(2), SELECTOR),
        Err(RouterError::Unauthorized(AuthorizationError::NotOwner))
    );
    assert!(!router.entry(&SELECTOR).unwrap().estopped);
}

#[test]
fn stop_of_unregistered_or_stopped_selector_fails() {
    let mut router = new_router();
    assert_eq!(router.stop_by_owner(&owner(), SELECTOR), Err(RouterError::SelectorDeactivated));
    assert_eq!(
        router.stop_with_proof(&id(7), SELECTOR, Verdict::Accepted),
        Err(RouterError::SelectorDeactivated)
    );
    router.register(&owner(), SELECTOR, v1()).unwrap();
    router.stop_by_owner(&owner(), SELECTOR).unwrap();
    assert_eq!(router.stop_by_owner(&owner(), SELECTOR), Err(RouterError::SelectorDeactivated));
    assert_eq!(
        router.stop_with_proof(&id(7), SELECTOR, Verdict::Accepted),
        Err(RouterError::SelectorDeactivated)
    );
    assert_eq!(
        router.proof_of_exploit_call(SELECTOR, sample_proof()),
        Err(RouterError::SelectorDeactivated)
    );
}

#[test]
fn proof_of_exploit_stops_verifier_for_anyone() {
    let mut router = new_router();
    router.register(&owner(), SELECTOR, v1()).unwrap();
    let call = router.proof_of_exploit_call(SELECTOR, sample_proof()).unwrap();
    assert_eq!(call.verifier, v1());
    assert_eq!(call.proof, sample_proof());
    assert_eq!(call.inputs, PublicInputs { image_id: [0u8; 32], journal_digest: [0u8; 32] });
    let event = router.stop_with_proof(&id(7), SELECTOR, Verdict::Accepted).unwrap();
    assert_eq!(event.router, id(100));
    assert_eq!(event.selector, SELECTOR);
    assert_eq!(event.verifier, v1());
    assert_eq!(event.triggered_by, id(7));
    assert_eq!(event.reason, "Invalid Proof was demonstrated, verifier compromised.");
    assert!(router.entry(&SELECTOR).unwrap().estopped);
    assert_eq!(
        router.dispatch(SELECTOR, sample_proof(), inputs()),
        Err(RouterError::SelectorDeactivated)
    );
}

#[test]
fn rejected_proof_of_exploit_leaves_verifier_active() {
    let mut router = new_router();
    router.register(&owner(), SELECTOR, v1()).unwrap();
    assert_eq!(
        router.stop_with_proof(&id(7), SELECTOR, Verdict::Rejected(42)),
        Err(RouterError::VerifierRejected(42))
    );
    assert_eq!(router.entry(&SELECTOR), Some(VerifierEntry::new(SELECTOR, v1())));
    assert_eq!(router.dispatch(SELECTOR, sample_proof(), inputs()).unwrap().verifier, v1());
}

#[test]
fn remove_needs_owner_and_stopped_entry() {
    let mut router = new_router();
    assert_eq!(router.remove(&owner(), SELECTOR), Err(RouterError::SelectorDeactivated));
    router.register(&owner(), SELECTOR, v1()).unwrap();
    assert_eq!(router.remove(&owner(), SELECTOR), Err(RouterError::SelectorActive));
    assert_eq!(
        router.remove(&id(2), SELECTOR),
        Err(RouterError::Unauthorized(AuthorizationError::NotOwner))
    );
    router.stop_by_owner(&owner(), SELECTOR).unwrap();
    assert_eq!(
        router.remove(&id(2), SELECTOR),
        Err(RouterError::Unauthorized(AuthorizationError::NotOwner))
    );
    assert_ne!(router.slot(&SELECTOR), Slot::Retired);
    assert_eq!(router.remove(&owner(), SELECTOR), Ok(()));
    assert_eq!(router.entry(&SELECTOR), None);
    assert_eq!(router.slot(&SELECTOR), Slot::Retired);
    assert_eq!(router.remove(&owner(), SELECTOR), Err(RouterError::SelectorDeactivated));
}

#[test]
fn removed_selector_stays_deactivated() {
    let mut router = new_router();
    router.register(&owner(), SELECTOR, v1()).unwrap();
    router.register(&owner(), OTHER, v2()).unwrap();
    router.stop_by_owner(&owner(), SELECTOR).unwrap();
    router.remove(&owner(), SELECTOR).unwrap();
    assert_eq!(router.register(&owner(), SELECTOR, v1()), Err(RouterError::SelectorDeactivated));
    assert_eq!(router.register(&owner(), SELECTOR, v2()), Err(RouterError::SelectorDeactivated));
    assert_eq!(
        router.dispatch(SELECTOR, sample_proof(), inputs()),
        Err(RouterError::SelectorDeactivated)
    );
    assert_eq!(router.stop_by_owner(&owner(), SELECTOR), Err(RouterError::SelectorDeactivated));
    assert_eq!(router.entry(&SELECTOR), None);
    assert_eq!(router.slot(&SELECTOR), Slot::Retired);
    assert_eq!(router.dispatch(OTHER, sample_proof(), inputs()).unwrap().verifier, v2());
    assert_eq!(router.slot(&OTHER), Slot::Occupied(VerifierEntry::new(OTHER, v2())));
}

#[test]
fn ownership_transfer_through_router() {
    let mut router = new_router();
    assert_eq!(
        router.propose_transfer(&id(2), id(2)),
        Err(RouterError::Unauthorized(AuthorizationError::NotOwner))
    );
    assert_eq!(
        router.accept_transfer(&id(2)),
        Err(RouterError::Unauthorized(AuthorizationError::NoPendingTransfer))
    );
    assert_eq!(router.propose_transfer(&owner(), id(2)), Ok(()));
    assert_eq!(router.propose_transfer(&owner(), id(3)), Ok(()));
    assert_eq!(router.account().ownership.pending_owner, Some(id(3)));
    assert_eq!(
        router.accept_transfer(&id(2)),
        Err(RouterError::Unauthorized(AuthorizationError::NotPendingOwner))
    );
    assert_eq!(router.account().ownership.owner, owner());
    assert_eq!(router.register(&id(3), SELECTOR, v1()), Err(RouterError::VerifierInvalidAuthority));
    assert_eq!(router.accept_transfer(&id(3)), Ok(()));
    assert_eq!(router.account().ownership.owner, id(3));
    assert_eq!(router.account().ownership.pending_owner, None);
    assert_eq!(router.register(&owner(), SELECTOR, v1()), Err(RouterError::VerifierInvalidAuthority));
    assert_eq!(router.register(&id(3), SELECTOR, v1()), Ok(()));
    assert_eq!(
        router.stop_by_owner(&owner(), SELECTOR),
        Err(RouterError::Unauthorized(AuthorizationError::NotOwner))
    );
    assert!(router.stop_by_owner(&id(3), SELECTOR).is_ok());
}

#[test]
fn emergency_stop_accounts_of_active_entry() {
    let mut router = new_router();
    assert_eq!(
        router.emergency_stop_accounts(&id(7), SELECTOR).err(),
        Some(RouterError::SelectorDeactivated)
    );
    router.register(&owner(), SELECTOR, v1()).unwrap();
    let ctx = router.emergency_stop_accounts(&id(7), SELECTOR).unwrap();
    assert_eq!(ctx.router_address, id(100));
    assert_eq!(ctx.router, router.account());
    assert_eq!(ctx.verifier_entry, VerifierEntry::new(SELECTOR, v1()));
    assert_eq!(ctx.authority, id(7));
    assert_eq!(ctx.verifier_program, v1());
}

#[test]
fn call_is_made_to_recorded_module_only() {
    let mut router = new_router();
    router.register(&owner(), SELECTOR, v1()).unwrap();
    let call = router.dispatch(SELECTOR, sample_proof(), inputs()).unwrap();
    assert_eq!(call.check_module(&v1()), Ok(()));
    assert_eq!(call.check_module(&v2()), Err(RouterError::InvalidVerifier));
}
