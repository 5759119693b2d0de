//! Identities: the 32-byte public addresses that name accounts and verifier modules.

use crate::bytes::bytes_equal;
use vstd::prelude::*;

verus! {

/// A public address that uniquely names an account or a module on the host platform.
#[derive(Clone, Copy, Debug)]
pub struct Identity {
    pub bytes: [u8; 32],
}

impl Identity {
    /// Wraps the 32 bytes of an address.
    pub fn new(bytes: [u8; 32]) -> (id: Identity)
        ensures
            id.bytes == bytes,
    {
        Identity { bytes }
    }
}

/// Two identities are equal when their bytes are.
impl PartialEq for Identity {
    fn eq(&self, other: &Identity) -> (r: bool) {
        bytes_equal(&self.bytes, &other.bytes)
    }
}

impl Eq for Identity {}

impl vstd::std_specs::cmp::PartialEqSpecImpl for Identity {
    open spec fn obeys_eq_spec() -> bool {
        true
    }

    open spec fn eq_spec(&self, other: &Identity) -> bool {
        *self == *other
    }
}

} // verus!
