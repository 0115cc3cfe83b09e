//! The unique identifier of a subscriber.
//!
//! A subscriber id is a 128-bit value generated server-side when the
//! subscriber row is inserted; the client never supplies one. The random
//! bits come from a version-4 UUID drawn behind a trusted wrapper.

use vstd::prelude::*;

verus! {

/// The identifier of a subscriber: the 128 bits of a version-4 UUID.
#[derive(Clone, Copy, PartialEq, Eq, Structural)]
pub struct SubscriberId {
    id: u128,
}

/// Relies on `uuid::Uuid::new_v4` and `uuid::Uuid::as_u128`: a freshly
/// drawn random version-4 UUID, returned as its 128-bit value. The
/// result is random, so nothing is promised of it.
#[verifier::external_body]
fn random_uuid_bits() -> u128 {
    uuid::Uuid::new_v4().as_u128()
}

impl View for SubscriberId {
    type V = u128;

    closed spec fn view(&self) -> u128 {
        self.id
    }
}

impl SubscriberId {
    /// Wraps the 128 bits of an identifier.
    pub fn new(id: u128) -> (r: SubscriberId)
        ensures
            r@ == id,
    {
        SubscriberId { id }
    }

    /// The 128 bits of the identifier.
    pub fn inner(self) -> (r: u128)
        ensures
            r == self@,
    {
        self.id
    }

    /// A freshly generated identifier for a new subscriber.
    pub fn generate() -> SubscriberId {
        SubscriberId { id: random_uuid_bits() }
    }
}

} // verus!
