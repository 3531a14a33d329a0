//! 32-byte account addresses.
//!
//! The chain identifies every account, mint and program by a 32-byte
//! address.  The adapter stores the raw bytes; parsing or deriving
//! addresses is done elsewhere.

use vstd::prelude::*;

verus! {

/// A 32-byte on-chain address.
#[derive(Debug)]
pub struct Address {
    pub bytes: Vec<u8>,
}

impl View for Address {
    type V = Seq<u8>;

    open spec fn view(&self) -> Seq<u8> {
        self.bytes@
    }
}

impl Address {
    /// A well-formed address holds exactly 32 bytes.
    pub open spec fn wf(&self) -> bool {
        self@.len() == 32
    }

    /// Builds an address from its raw bytes.
    pub fn new(bytes: Vec<u8>) -> (r: Address)
        requires
            bytes@.len() == 32,
        ensures
            r@ == bytes@,
            r.wf(),
    {
        Address { bytes }
    }

    /// The all-zero address.
    pub fn zeroed() -> (r: Address)
        ensures
            r@ == Seq::new(32, |i: int| 0u8),
            r.wf(),
    {
        let mut bytes: Vec<u8> = Vec::new();
        let mut i: usize = 0;
        while i < 32
            invariant
                i <= 32,
                bytes@ == Seq::new(i as nat, |j: int| 0u8),
            decreases 32 - i,
        {
            bytes.push(0);
            assert(bytes@ =~= Seq::new(i as nat + 1, |j: int| 0u8));
            i += 1;
        }
        Address { bytes }
    }

    /// Byte-wise equality of two addresses.
    pub fn equals(&self, other: &Address) -> (r: bool)
        ensures
            r == (self@ == other@),
    {
        if self.bytes.len() != other.bytes.len() {
            assert(self@.len() != other@.len());
            return false;
        }
        let n = self.bytes.len();
        let mut i: usize = 0;
        while i < n
            invariant
                n == self@.len(),
                n == other@.len(),
                i <= n,
                forall|j: int| 0 <= j < i ==> self@[j] == other@[j],
            decreases n - i,
        {
            if self.bytes[i] != other.bytes[i] {
                return false;
            }
            i += 1;
        }
        assert(self@ =~= other@);
        true
    }
}

impl Clone for Address {
    fn clone(&self) -> (r: Self)
        ensures
            r@ == self@,
    {
        let mut bytes: Vec<u8> = Vec::new();
        let n = self.bytes.len();
        let mut i: usize = 0;
        while i < n
            invariant
                n == self@.len(),
                i <= n,
                bytes@ == self@.subrange(0, i as int),
            decreases n - i,
        {
            bytes.push(self.bytes[i]);
            i += 1;
        }
        assert(bytes@ =~= self@);
        Address { bytes }
    }
}

} // verus!
