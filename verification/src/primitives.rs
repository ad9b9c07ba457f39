//! Plain values shared by every part of the engine: account identifiers,
//! balances, block heights and asset identifiers.

use vstd::prelude::*;

verus! {

/// An amount of the treasury asset. Stakes, tallies and payouts are balances.
pub type Balance = u128;

/// A block height, the engine's only notion of time.
pub type BlockNumber = u32;

/// The identifier of an asset on the treasury ledger.
pub type TokenId = u32;

/// `total`, stopped at `Balance::MAX`.
pub open spec fn capped(total: int) -> Balance {
    if total > Balance::MAX {
        Balance::MAX
    } else {
        total as Balance
    }
}

/// The sum of two balances, stopped at `Balance::MAX`.
pub open spec fn saturating_sum(a: Balance, b: Balance) -> Balance {
    capped(a + b)
}

/// A 32-byte ledger account identifier.
///
/// Two identifiers are equal exactly when all their bytes are equal; that is
/// what `==` means both in executable code and in contracts.
#[derive(Clone, Copy, Debug, Hash)]
pub struct AccountId(pub [u8; 32]);

impl AccountId {
    /// Wraps the raw bytes of an account identifier.
    pub fn new(bytes: [u8; 32]) -> (id: AccountId)
        ensures
            id == AccountId(bytes),
    {
        AccountId(bytes)
    }

    /// The raw bytes of the identifier.
    pub fn as_bytes(&self) -> (bytes: &[u8; 32])
        ensures
            *bytes == self.0,
    {
        &self.0
    }
}

impl PartialEq for AccountId {
    fn eq(&self, other: &AccountId) -> (r: bool) {
        let mut i: usize = 0;
        while i < 32
            invariant
                i <= 32,
                forall|j: int| 0 <= j < i ==> self.0[j] == other.0[j],
            decreases 32 - i,
        {
            if self.0[i] != other.0[i] {
                return false;
            }
            i = i + 1;
        }
        assert(self.0 =~= other.0);
        true
    }
}

impl Eq for AccountId {}

impl vstd::std_specs::cmp::PartialEqSpecImpl for AccountId {
    open spec fn obeys_eq_spec() -> bool {
        true
    }

    open spec fn eq_spec(&self, other: &AccountId) -> bool {
        *self == *other
    }
}

} // verus!
