//! Identifiers.

use vstd::prelude::*;

verus! {

/// An identifier of 128 bits, unique by chance.
#[derive(Debug, Clone, Copy, PartialEq, Eq, Hash, Structural)]
pub struct Uuid {
    pub bits: u128,
}

impl Uuid {
    /// A random identifier: version 4 in bits 79 to 76, and the standard variant in bits 63 and 62.
    pub open spec fn is_random(self) -> bool {
        (self.bits >> 76) & 0xf == 4 && (self.bits >> 62) & 3 == 2
    }

    /// A new identifier. `uuid::Uuid::new_v4` fills 122 bits at random; nothing is said of them,
    /// and the call does not return where the system has no random numbers to give.
    #[verifier::external_body]
    pub fn new_v4() -> (id: Self)
        ensures
            id.is_random(),
    {
        Uuid { bits: uuid::Uuid::new_v4().as_u128() }
    }
}

/// A message group: the session that owns it, and its number there.
#[derive(Debug, Clone, Copy, PartialEq, Eq, Hash, Structural)]
pub struct MessageGroupKey {
    pub cid: u64,
    pub mgid: u128,
}

/// A file on its way.
#[derive(Debug, Clone, Copy, PartialEq, Eq, Hash, Structural)]
pub struct ObjectId {
    pub bits: u128,
}

} // verus!
