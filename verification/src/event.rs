//! Notifications for the host's event log.

use vstd::prelude::*;
use crate::primitives::{AccountId, Balance, BlockNumber};

verus! {

/// A notification that the host appends to its event log. The engine hands
/// events out and never reads them back.
#[derive(Clone, Copy, Debug, PartialEq, Eq)]
pub enum Event {
    /// An asset or a proposal came into being.
    Created { id: u32, creator: AccountId, admin: AccountId },
    /// Funds moved between two accounts.
    Transfer { from: Option<AccountId>, to: Option<AccountId>, value: Balance },
    /// A spender was acknowledged for an amount of the owner's funds.
    Approval { owner: AccountId, spender: AccountId, value: Balance },
    /// A member cast a vote.
    Voted { who: Option<AccountId>, when: Option<BlockNumber> },
}

} // verus!
