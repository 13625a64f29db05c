//! Account identities.
//!
//! Every participant of the protocol — wallets, asset mints, vault and mint
//! authorities, metadata records — is identified by a 32-byte address. The
//! engine never looks inside an address except to compare it with another one
//! or with the all-zero null identity; the 32 bytes are carried as two 128-bit
//! little-endian halves so that equality is plain structural equality.

use vstd::prelude::*;

verus! {

/// A 32-byte account identity, stored as two little-endian 128-bit halves:
/// `lo` holds bytes 0..16, `hi` holds bytes 16..32.
#[derive(Clone, Copy, PartialEq, Eq, Structural, Debug, Hash)]
pub struct Address {
    pub lo: u128,
    pub hi: u128,
}

impl Address {
    /// The all-zero identity. The runtime's default key is all zeroes, and the
    /// protocol uses it as "unset": a wallet must not be null, and a token
    /// record whose derivative mint is null has no derivative yet.
    pub open spec fn null() -> Address {
        Address { lo: 0, hi: 0 }
    }

    pub open spec fn spec_is_null(self) -> bool {
        self == Address::null()
    }

    /// Byte `i` (0 <= i < 32) of the identity, little-endian within each half.
    pub open spec fn byte(self, i: int) -> u8 {
        if i < 16 {
            ((self.lo >> (8 * i)) & 0xff) as u8
        } else {
            ((self.hi >> (8 * (i - 16))) & 0xff) as u8
        }
    }

    /// The 32 bytes of the identity, in order.
    pub open spec fn bytes(self) -> Seq<u8> {
        Seq::new(32, |i: int| self.byte(i))
    }

    pub fn is_null(&self) -> (r: bool)
        ensures
            r == self.spec_is_null(),
    {
        self.lo == 0 && self.hi == 0
    }

    /// The identity as a byte vector, as seed material for address derivation.
    pub fn to_bytes(&self) -> (r: Vec<u8>)
        ensures
            r@ == self.bytes(),
    {
        let mut out: Vec<u8> = Vec::new();
        let mut i: usize = 0;
        while i < 16
            invariant
                i <= 16,
                out@.len() == i,
                forall|j: int| 0 <= j < i ==> out@[j] == self.byte(j),
            decreases 16 - i,
        {
            out.push(((self.lo >> (8 * (i as u128))) & 0xff) as u8);
            i = i + 1;
        }
        let mut k: usize = 0;
        while k < 16
            invariant
                k <= 16,
                out@.len() == 16 + k,
                forall|j: int| 0 <= j < 16 + k ==> out@[j] == self.byte(j),
            decreases 16 - k,
        {
            out.push(((self.hi >> (8 * (k as u128))) & 0xff) as u8);
            k = k + 1;
        }
        proof {
            assert(out@ =~= self.bytes());
        }
        out
    }
}

} // verus!
