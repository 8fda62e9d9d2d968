//! What the service knows about a bank.

use vstd::prelude::*;

verus! {

/// Position of a block in the ledger's schedule.
pub type Slot = u64;

/// Identifies one bank; two banks for the same slot have different ids.
pub type BankId = u64;

/// A bank, as far as the service looks into it. `inner` is the runtime's own
/// bank, which the service only passes on.
pub struct Bank<B> {
    pub slot: Slot,
    pub bank_id: BankId,
    pub block_height: u64,
    pub inner: B,
}

/// A 256 bit accounts hash.
#[derive(Clone, Copy, Debug)]
pub struct AccountsHash {
    pub bytes: [u8; 32],
}

impl AccountsHash {
    /// Whether two hashes have the same bytes.
    pub fn same(&self, other: &AccountsHash) -> (equal: bool)
        ensures
            equal == (*self == *other),
    {
        let mut i: usize = 0;
        while i < 32
            invariant
                i <= 32,
                forall|j: int| 0 <= j < i ==> self.bytes@[j] == other.bytes@[j],
            decreases 32 - i,
        {
            if self.bytes[i] != other.bytes[i] {
                return false;
            }
            i += 1;
        }
        assert(self.bytes =~= other.bytes);
        true
    }
}

} // verus!
