//! A client or entity id: the 16 bytes of a UUID, in a form that the game
//! can compare, hash and send.
use vstd::prelude::*;

verus! {

/// A UUID as its 16 bytes.
#[derive(Clone, Copy, PartialEq, Eq, Hash, PartialOrd, Ord, Debug)]
pub struct Uuid(pub [u8; 16]);

impl Uuid {
    /// The id with these bytes.
    pub fn from_bytes(bytes: [u8; 16]) -> (u: Uuid)
        ensures
            u.0@ == bytes@,
    {
        Uuid(bytes)
    }

    /// The bytes of this id.
    pub fn into_bytes(self) -> (bytes: [u8; 16])
        ensures
            bytes@ == self.0@,
    {
        self.0
    }
}

} // verus!
