//! Members and their stake.

use vstd::prelude::*;
use crate::primitives::{saturating_sum, Balance, BlockNumber};

verus! {

/// The stake record of one account.
///
/// A member has one vote marker for all proposals. Whether the member has
/// voted in a window is read off the marker alone: a vote on one proposal
/// also bars the member from every other proposal whose window had opened by
/// then, and a member who has never voted, whose marker is zero, counts as
/// having voted in a window that starts at height zero.
#[derive(Clone, Copy, Debug, PartialEq, Eq, Structural)]
pub struct Member {
    /// Everything the account has staked so far, capped at `Balance::MAX`.
    pub voting_power: Balance,
    /// The height at which the account last voted, on whatever proposal;
    /// zero before its first vote.
    pub last_vote: BlockNumber,
}

impl Member {
    /// The record of an account that has staked nothing and never voted.
    pub open spec fn unstaked() -> Member {
        Member { voting_power: 0, last_vote: 0 }
    }

    /// The record after staking `amount` more: the power grows by `amount`
    /// and stops at `Balance::MAX`; the last vote stays.
    pub open spec fn staked(self, amount: Balance) -> Member {
        Member { voting_power: saturating_sum(self.voting_power, amount), last_vote: self.last_vote }
    }

    /// Whether the last vote falls at or after `start`.
    pub open spec fn voted_since(self, start: BlockNumber) -> bool {
        self.last_vote >= start
    }

    /// The record after a vote at `height`: the power stays.
    pub open spec fn voted_at(self, height: BlockNumber) -> Member {
        Member { voting_power: self.voting_power, last_vote: height }
    }

    /// The record of an account that has staked nothing and never voted.
    pub fn new() -> (member: Member)
        ensures
            member == Member::unstaked(),
    {
        Member { voting_power: 0, last_vote: 0 }
    }

    /// Adds `amount` to the voting power, stopping at `Balance::MAX`.
    pub fn stake(self, amount: Balance) -> (member: Member)
        ensures
            member == self.staked(amount),
    {
        Member { voting_power: self.voting_power.saturating_add(amount), last_vote: self.last_vote }
    }

    /// Whether the member has voted at or after `start`.
    pub fn has_voted_since(&self, start: BlockNumber) -> (voted: bool)
        ensures
            voted == self.voted_since(start),
    {
        self.last_vote >= start
    }

    /// Records a vote cast at `height`.
    pub fn record_vote(self, height: BlockNumber) -> (member: Member)
        ensures
            member == self.voted_at(height),
    {
        Member { voting_power: self.voting_power, last_vote: height }
    }
}

impl Default for Member {
    fn default() -> (member: Member)
        ensures
            member == Member::unstaked(),
    {
        Member::new()
    }
}

} // verus!
