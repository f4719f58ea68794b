use vstd::prelude::*;

verus! {

/// A single-slot store for a 32-byte identity hash: each store overwrites
/// the slot, and a read returns the bytes most recently stored, unchanged.
/// A fresh instance holds the all-zero hash.
pub struct Zeroid {
    last_hash: [u8; 32],
}

impl View for Zeroid {
    type V = Seq<u8>;

    closed spec fn view(&self) -> Seq<u8> {
        self.last_hash@
    }
}

impl Zeroid {
    /// A fresh store, holding 32 zero bytes.
    pub fn new() -> (z: Self)
        ensures
            z@.len() == 32,
            forall|i: int| 0 <= i < 32 ==> z@[i] == 0u8,
    {
        Zeroid { last_hash: [0u8; 32] }
    }

    /// Overwrites the stored hash: the last write wins.
    pub fn store_verified_resume_data(&mut self, hash: [u8; 32])
        ensures
            final(self)@ == hash@,
    {
        self.last_hash = hash;
    }

    /// Returns the stored hash, byte for byte.
    pub fn get_verified_resume_data(&self) -> (hash: [u8; 32])
        ensures
            hash@ == self@,
    {
        self.last_hash
    }
}

} // verus!
