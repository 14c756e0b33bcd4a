use vstd::prelude::*;

verus! {

/// A fixed-width (256-bit) identity value, held as four 64-bit words.
///
/// The guarded operations only ever compare identities for equality; the
/// cryptography that proves a caller controls an identity is checked by the
/// hosting environment before a request reaches this crate.
#[derive(Clone, Copy, PartialEq, Eq, Structural, Debug)]
pub struct Pubkey {
    pub w0: u64,
    pub w1: u64,
    pub w2: u64,
    pub w3: u64,
}

impl Pubkey {
    /// The all-zero identity. It never names a real participant: the stored
    /// `authority`, `from` and `to` fields are never this value.
    pub open spec fn zero() -> Pubkey {
        Pubkey { w0: 0, w1: 0, w2: 0, w3: 0 }
    }

    pub fn new(w0: u64, w1: u64, w2: u64, w3: u64) -> (k: Pubkey)
        ensures
            k == (Pubkey { w0, w1, w2, w3 }),
    {
        Pubkey { w0, w1, w2, w3 }
    }

    /// True exactly on the zero identity.
    pub fn is_zero(&self) -> (z: bool)
        ensures
            z == (*self == Pubkey::zero()),
    {
        self.w0 == 0 && self.w1 == 0 && self.w2 == 0 && self.w3 == 0
    }
}

} // verus!
