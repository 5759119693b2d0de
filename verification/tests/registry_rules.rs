use verifier_router::registry::{dispatch, register_verifier, remove_verifier, Slot};
use verifier_router::{
    AuthorizationError, Identity, Ownership, Proof, PublicInputs, RouterError, VerifierCall,
    VerifierEntry,
};

const SELECTOR: [u8; 4] = [1, 2, 3, 4];
const OTHER: [u8; 4] = [1, 2, 3, 5];

fn id(n: u8) -> Identity {
    Identity::new([n; 32])
}

fn ownership() -> Ownership {
    Ownership::new(id(1))
}

fn active() -> Slot {
    Slot::Occupied(VerifierEntry::new(SELECTOR, id(50)))
}

fn stopped() -> Slot {
    Slot::Occupied(VerifierEntry { selector: SELECTOR, verifier: id(50), estopped: true })
}

fn sample_proof() -> Proof {
    Proof { pi_a: [1u8; 64], pi_b: [2u8; 128], pi_c: [3u8; 64] }
}

fn inputs() -> PublicInputs {
    PublicInputs { image_id: [8u8; 32], journal_digest: [9u8; 32] }
}

#[test]
fn register_in_vacant_slot_creates_active_entry() {
    assert_eq!(
        register_verifier(&ownership(), &id(1), &Slot::Vacant, SELECTOR, id(50)),
        Ok(VerifierEntry { selector: SELECTOR, verifier: id(50), estopped: false })
    );
}

#[test]
fn register_needs_owner_whatever_the_slot() {
    for slot in [Slot::Vacant, active(), stopped(), Slot::Retired] {
        assert_eq!(
            register_verifier(&ownership(), &id(2), &slot, SELECTOR, id(50)),
            Err(RouterError::VerifierInvalidAuthority)
        );
    }
}

#[test]
fn register_in_occupied_slot() {
    assert_eq!(
        register_verifier(&ownership(), &id(1), &active(), SELECTOR, id(50)),
        Ok(VerifierEntry::new(SELECTOR, id(50)))
    );
    assert_eq!(
        register_verifier(&ownership(), &id(1), &active(), SELECTOR, id(51)),
        Err(RouterError::DuplicateActiveSelector)
    );
    assert_eq!(
        register_verifier(&ownership(), &id(1), &active(), OTHER, id(50)),
        Err(RouterError::SelectorDeactivated)
    );
}

#[test]
fn register_in_stopped_or_retired_slot_fails() {
    assert_eq!(
        register_verifier(&ownership(), &id(1), &stopped(), SELECTOR, id(50)),
        Err(RouterError::SelectorDeactivated)
    );
    assert_eq!(
        register_verifier(&ownership(), &id(1), &stopped(), SELECTOR, id(51)),
        Err(RouterError::SelectorDeactivated)
    );
    assert_eq!(
        register_verifier(&ownership(), &id(1), &Slot::Retired, SELECTOR, id(50)),
        Err(RouterError::SelectorDeactivated)
    );
}

#[test]
fn remove_rules() {
    assert_eq!(remove_verifier(&ownership(), &id(1), &stopped(), SELECTOR), Ok(()));
    assert_eq!(
        remove_verifier(&ownership(), &id(1), &active(), SELECTOR),
        Err(RouterError::SelectorActive)
    );
    assert_eq!(
        remove_verifier(&ownership(), &id(1), &Slot::Vacant, SELECTOR),
        Err(RouterError::SelectorDeactivated)
    );
    assert_eq!(
        remove_verifier(&ownership(), &id(1), &Slot::Retired, SELECTOR),
        Err(RouterError::SelectorDeactivated)
    );
    assert_eq!(
        remove_verifier(&ownership(), &id(1), &stopped(), OTHER),
        Err(RouterError::SelectorDeactivated)
    );
    for slot in [Slot::Vacant, active(), stopped(), Slot::Retired] {
        assert_eq!(
            remove_verifier(&ownership(), &id(2), &slot, SELECTOR),
            Err(RouterError::Unauthorized(AuthorizationError::NotOwner))
        );
    }
}

#[test]
fn dispatch_rules() {
    assert_eq!(
        dispatch(&active(), SELECTOR, sample_proof(), inputs()),
        Ok(VerifierCall { verifier: id(50), proof: sample_proof(), inputs: inputs() })
    );
    for slot in [Slot::Vacant, stopped(), Slot::Retired] {
        assert_eq!(
            dispatch(&slot, SELECTOR, sample_proof(), inputs()),
            Err(RouterError::SelectorDeactivated)
        );
    }
    assert_eq!(
        dispatch(&active(), OTHER, sample_proof(), inputs()),
        Err(RouterError::SelectorDeactivated)
    );
}
