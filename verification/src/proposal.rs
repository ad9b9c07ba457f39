//! Spending proposals and the rules that move one through its life:
//! opening, voting, finalisation once the window has closed, and the release
//! of the payout.

use vstd::prelude::*;
use crate::error::{Error, LedgerError};
use crate::member::Member;
use crate::primitives::{saturating_sum, AccountId, Balance, BlockNumber};

verus! {

/// A description must be strictly shorter than this many bytes.
pub const DESCRIPTION_LIMIT: usize = 255;

/// Where a proposal stands in its life.
#[derive(Clone, Copy, Debug, PartialEq, Eq, Structural)]
pub enum ProposalStatus {
    /// Open, or closed and not looked at since.
    Submitted,
    /// Closed with more weight in favour than against.
    Approved,
    /// Closed without more weight in favour than against.
    Rejected,
    /// The payout has been released.
    Executed,
}

/// The voting window of a proposal. Votes are accepted up to its end, the
/// end included; a member whose last vote falls at or after its start has
/// voted in it.
#[derive(Clone, Copy, Debug, PartialEq, Eq, Structural)]
pub struct VotingWindow {
    /// The height at which the proposal was created.
    pub start: BlockNumber,
    /// The last height at which a vote is accepted.
    pub end: BlockNumber,
}

impl VotingWindow {
    /// The window that opens at `start` and lasts `period` blocks; its end
    /// stops at `BlockNumber::MAX`.
    pub open spec fn opening_at(start: BlockNumber, period: BlockNumber) -> VotingWindow {
        VotingWindow {
            start,
            end: if start + period > BlockNumber::MAX {
                BlockNumber::MAX
            } else {
                (start + period) as BlockNumber
            },
        }
    }

    /// Whether the window has closed at `height`: the height lies beyond its end.
    pub open spec fn closed_at(self, height: BlockNumber) -> bool {
        height > self.end
    }

    /// Opens a window at `start` that lasts `period` blocks.
    pub fn open_at(start: BlockNumber, period: BlockNumber) -> (window: VotingWindow)
        ensures
            window == VotingWindow::opening_at(start, period),
    {
        VotingWindow { start, end: start.saturating_add(period) }
    }

    /// Whether the window has closed at `height`.
    pub fn has_closed(&self, height: BlockNumber) -> (closed: bool)
        ensures
            closed == self.closed_at(height),
    {
        height > self.end
    }
}

/// The running sums of the weight cast for and against a proposal.
#[derive(Clone, Copy, Debug, PartialEq, Eq, Structural)]
pub struct Tally {
    /// The weight cast in favour.
    pub yes: Balance,
    /// The weight cast against.
    pub no: Balance,
}

impl Tally {
    /// The tally before any vote.
    pub open spec fn empty() -> Tally {
        Tally { yes: 0, no: 0 }
    }

    /// Whether the tally approves: strictly more weight in favour than
    /// against, so that a tie rejects.
    pub open spec fn approves(self) -> bool {
        self.yes > self.no
    }

    /// The tally after one more ballot of the given weight; either sum stops
    /// at `Balance::MAX`.
    pub open spec fn counting(self, approve: bool, weight: Balance) -> Tally {
        if approve {
            Tally { yes: saturating_sum(self.yes, weight), no: self.no }
        } else {
            Tally { yes: self.yes, no: saturating_sum(self.no, weight) }
        }
    }

    /// The tally before any vote.
    pub fn new() -> (tally: Tally)
        ensures
            tally == Tally::empty(),
    {
        Tally { yes: 0, no: 0 }
    }

    /// Whether strictly more weight was cast in favour than against.
    pub fn is_approving(&self) -> (approving: bool)
        ensures
            approving == self.approves(),
    {
        self.yes > self.no
    }

    /// Adds one ballot of the given weight to the side it was cast for.
    pub fn count(self, approve: bool, weight: Balance) -> (tally: Tally)
        ensures
            tally == self.counting(approve, weight),
    {
        if approve {
            Tally { yes: self.yes.saturating_add(weight), no: self.no }
        } else {
            Tally { yes: self.yes, no: self.no.saturating_add(weight) }
        }
    }
}

/// What an approved proposal pays, and to whom.
#[derive(Clone, Copy, Debug, PartialEq, Eq)]
pub struct Payout {
    /// The account that receives the funds.
    pub beneficiary: AccountId,
    /// The amount taken from the treasury.
    pub amount: Balance,
}

/// A spending proposal.
#[derive(Debug, PartialEq, Eq)]
pub struct Proposal {
    /// The identifier under which the proposal is stored.
    pub id: u32,
    /// What the proposal is about; shorter than `DESCRIPTION_LIMIT` bytes
    /// when opened by `Proposal::open`.
    pub description: Vec<u8>,
    /// Where the proposal stands in its life.
    pub status: ProposalStatus,
    /// When votes are accepted. A proposal without a window is malformed.
    pub voting_window: Option<VotingWindow>,
    /// The votes so far.
    pub tally: Tally,
    /// What to pay on approval. A proposal without a payout cannot be executed.
    pub payout: Option<Payout>,
}

/// A proposal as a mathematical value: the description is a sequence of bytes.
#[verifier::ext_equal]
pub struct ProposalView {
    pub id: u32,
    pub description: Seq<u8>,
    pub status: ProposalStatus,
    pub voting_window: Option<VotingWindow>,
    pub tally: Tally,
    pub payout: Option<Payout>,
}

impl View for Proposal {
    type V = ProposalView;

    open spec fn view(&self) -> ProposalView {
        ProposalView {
            id: self.id,
            description: self.description@,
            status: self.status,
            voting_window: self.voting_window,
            tally: self.tally,
            payout: self.payout,
        }
    }
}

impl ProposalView {
    /// A proposal as `Proposal::open` creates it and as every operation
    /// keeps it: with a voting window, a payout and a description short
    /// enough to store.
    pub open spec fn well_formed(self) -> bool {
        &&& self.voting_window is Some
        &&& self.payout is Some
        &&& self.description.len() < DESCRIPTION_LIMIT
    }

    /// The proposal that `Proposal::open` creates: submitted, without votes,
    /// its window opening at `height`.
    pub open spec fn opened(
        id: u32,
        description: Seq<u8>,
        payout: Payout,
        height: BlockNumber,
        voting_period: BlockNumber,
    ) -> ProposalView {
        ProposalView {
            id,
            description,
            status: ProposalStatus::Submitted,
            voting_window: Some(VotingWindow::opening_at(height, voting_period)),
            tally: Tally::empty(),
            payout: Some(payout),
        }
    }

    /// Whether the proposal has a window and that window has closed at `height`.
    pub open spec fn expired_at(self, height: BlockNumber) -> bool {
        self.voting_window matches Some(window) && window.closed_at(height)
    }

    /// The status that finalisation gives: a submitted proposal becomes
    /// approved if its tally approves and rejected if not; any other status stays.
    pub open spec fn final_status(self) -> ProposalStatus {
        if self.status == ProposalStatus::Submitted {
            if self.tally.approves() {
                ProposalStatus::Approved
            } else {
                ProposalStatus::Rejected
            }
        } else {
            self.status
        }
    }

    /// The proposal with its status finalised and nothing else changed.
    pub open spec fn finalized(self) -> ProposalView {
        ProposalView { status: self.final_status(), ..self }
    }

    /// The first reason, in the order in which a vote is checked, why
    /// `voter` may not vote on the proposal at `height`; `None` if the vote
    /// counts. `voter` is the caller's stake record, `None` if the caller has
    /// never joined.
    pub open spec fn ballot_error(
        self,
        voter: Option<Member>,
        height: BlockNumber,
    ) -> Option<Error> {
        match self.voting_window {
            None => Some(Error::MalformedProposal),
            Some(window) => if window.closed_at(height) {
                Some(Error::VotingPeriodEnded)
            } else {
                match voter {
                    None => Some(Error::MemberNotFound),
                    Some(member) => if member.voted_since(window.start) {
                        Some(Error::AlreadyVoted)
                    } else {
                        None
                    },
                }
            },
        }
    }

    /// The proposal after `voter` tried to vote at `height`. A vote that
    /// counts adds the voter's power to the tally. A vote that comes after
    /// the window has closed finalises the status. Any other refused vote
    /// changes nothing.
    pub open spec fn after_ballot(
        self,
        voter: Option<Member>,
        height: BlockNumber,
        approve: bool,
    ) -> ProposalView {
        if self.ballot_error(voter, height) is None {
            ProposalView { tally: self.tally.counting(approve, voter.unwrap().voting_power), ..self }
        } else if self.expired_at(height) {
            self.finalized()
        } else {
            self
        }
    }

    /// The first reason, in the order in which an execution is checked, why
    /// the payout is not due at `height`; `None` if it is due.
    /// `treasury_balance` is what the ledger reports for the treasury, `None`
    /// if it reports nothing.
    pub open spec fn execution_error(
        self,
        height: BlockNumber,
        treasury_balance: Option<Balance>,
    ) -> Option<Error> {
        if self.voting_window is None || self.payout is None {
            Some(Error::MalformedProposal)
        } else if !self.voting_window.unwrap().closed_at(height) {
            Some(Error::VotingPeriodNotEnded)
        } else if self.status == ProposalStatus::Executed {
            Some(Error::ProposalExecuted)
        } else if !self.tally.approves() {
            Some(Error::ProposalRejected)
        } else if !(treasury_balance matches Some(balance) && balance > self.payout.unwrap().amount) {
            Some(Error::InsufficientTreasuryFunds)
        } else {
            None
        }
    }

    /// Why an execution fails once the ledger has answered: the first reason
    /// why the payout is not due, else the ledger's refusal of the transfer.
    /// `None` if the payout was due and the transfer succeeded.
    pub open spec fn settlement_error(
        self,
        height: BlockNumber,
        treasury_balance: Option<Balance>,
        transfer: Result<(), LedgerError>,
    ) -> Option<Error> {
        match self.execution_error(height, treasury_balance) {
            Some(error) => Some(error),
            None => match transfer {
                Err(refusal) => Some(Error::Ledger(refusal)),
                Ok(_) => None,
            },
        }
    }

    /// The proposal marked as executed and nothing else changed.
    pub open spec fn executed(self) -> ProposalView {
        ProposalView { status: ProposalStatus::Executed, ..self }
    }
}

impl Clone for Proposal {
    fn clone(&self) -> (copy: Proposal)
        ensures
            copy@ == self@,
    {
        let copy = Proposal {
            id: self.id,
            description: self.description.clone(),
            status: self.status,
            voting_window: self.voting_window,
            tally: self.tally,
            payout: self.payout,
        };
        assert(copy.description@ =~= self.description@);
        copy
    }
}

impl Proposal {
    /// Opens a proposal under `id` at `height`.
    ///
    /// A description of `DESCRIPTION_LIMIT` bytes or more is refused with
    /// `ExceedsMaxDescriptionLength`. Otherwise the proposal is submitted,
    /// has no votes, pays `payout` and accepts votes from `height` on for
    /// `voting_period` blocks.
    pub fn open(
        id: u32,
        description: Vec<u8>,
        payout: Payout,
        height: BlockNumber,
        voting_period: BlockNumber,
    ) -> (result: Result<Proposal, Error>)
        ensures
            match result {
                Ok(proposal) => description@.len() < DESCRIPTION_LIMIT && proposal@
                    == ProposalView::opened(id, description@, payout, height, voting_period),
                Err(error) => description@.len() >= DESCRIPTION_LIMIT && error
                    == Error::ExceedsMaxDescriptionLength,
            },
    {
        if description.len() >= DESCRIPTION_LIMIT {
            return Err(Error::ExceedsMaxDescriptionLength);
        }
        Ok(
            Proposal {
                id,
                description,
                status: ProposalStatus::Submitted,
                voting_window: Some(VotingWindow::open_at(height, voting_period)),
                tally: Tally::new(),
                payout: Some(payout),
            },
        )
    }

    /// Finalises the status if the voting window has closed at `height`, and
    /// says whether the status changed.
    ///
    /// A submitted proposal whose window has closed becomes approved if its
    /// tally approves and rejected if not. In every other case nothing changes.
    pub fn finalize_if_expired(&mut self, height: BlockNumber) -> (transitioned: bool)
        ensures
            transitioned == (old(self)@.expired_at(height) && old(self)@.status
                == ProposalStatus::Submitted),
            final(self)@ == if old(self)@.expired_at(height) {
                old(self)@.finalized()
            } else {
                old(self)@
            },
    {
        let expired = match self.voting_window {
            Some(window) => window.has_closed(height),
            None => false,
        };
        if expired && self.status == ProposalStatus::Submitted {
            if self.tally.is_approving() {
                self.status = ProposalStatus::Approved;
            } else {
                self.status = ProposalStatus::Rejected;
            }
            true
        } else {
            false
        }
    }

    /// Lets `voter` vote on the proposal at `height`, and returns the
    /// voter's record as it stands after the vote.
    ///
    /// `voter` is the caller's stake record, `None` if the caller has never
    /// joined. The checks come in this order: a proposal without a window is
    /// `MalformedProposal`; after the window has closed the status is
    /// finalised and the vote is refused with `VotingPeriodEnded`; a caller
    /// without a record is `MemberNotFound`; a voter whose last vote falls at
    /// or after the window's start is `AlreadyVoted`. A vote that passes adds
    /// the voter's power to the side it was cast for.
    pub fn cast_vote(
        &mut self,
        voter: Option<Member>,
        height: BlockNumber,
        approve: bool,
    ) -> (result: Result<Member, Error>)
        ensures
            match result {
                Ok(member) => old(self)@.ballot_error(voter, height) is None && member
                    == voter.unwrap().voted_at(height),
                Err(error) => old(self)@.ballot_error(voter, height) == Some(error),
            },
            final(self)@ == old(self)@.after_ballot(voter, height, approve),
    {
        let window = match self.voting_window {
            Some(window) => window,
            None => {
                return Err(Error::MalformedProposal);
            },
        };
        if window.has_closed(height) {
            self.finalize_if_expired(height);
            return Err(Error::VotingPeriodEnded);
        }
        let member = match voter {
            Some(member) => member,
            None => {
                return Err(Error::MemberNotFound);
            },
        };
        if member.has_voted_since(window.start) {
            return Err(Error::AlreadyVoted);
        }
        self.tally = self.tally.count(approve, member.voting_power);
        Ok(member.record_vote(height))
    }

    /// Decides whether the payout is due at `height`, and returns it if so.
    ///
    /// `treasury_balance` is what the ledger reports for the treasury, `None`
    /// if it reports nothing. The checks come in this order: a proposal
    /// without a window or a payout is `MalformedProposal`; an open window is
    /// `VotingPeriodNotEnded`; an executed proposal is `ProposalExecuted`; a
    /// tally that does not approve is `ProposalRejected`; a treasury that
    /// does not hold strictly more than the amount is
    /// `InsufficientTreasuryFunds`.
    pub fn payout_due(
        &self,
        height: BlockNumber,
        treasury_balance: Option<Balance>,
    ) -> (result: Result<Payout, Error>)
        ensures
            match result {
                Ok(payout) => self@.execution_error(height, treasury_balance) is None
                    && self@.payout == Some(payout),
                Err(error) => self@.execution_error(height, treasury_balance) == Some(error),
            },
    {
        let (window, payout) = match (self.voting_window, self.payout) {
            (Some(window), Some(payout)) => (window, payout),
            _ => {
                return Err(Error::MalformedProposal);
            },
        };
        if !window.has_closed(height) {
            return Err(Error::VotingPeriodNotEnded);
        }
        if self.status == ProposalStatus::Executed {
            return Err(Error::ProposalExecuted);
        }
        if !self.tally.is_approving() {
            return Err(Error::ProposalRejected);
        }
        match treasury_balance {
            Some(balance) if balance > payout.amount => Ok(payout),
            _ => Err(Error::InsufficientTreasuryFunds),
        }
    }

    /// Completes an execution once the ledger has answered the transfer of
    /// the payout, and returns the payout that was released.
    ///
    /// `transfer` is the ledger's answer; it is read only if the payout is
    /// due, as `payout_due` decides it. A refused transfer is handed on as
    /// `Error::Ledger` and leaves the proposal as it was. Only a payout that
    /// was due and transferred marks the proposal as executed.
    pub fn settle(
        &mut self,
        height: BlockNumber,
        treasury_balance: Option<Balance>,
        transfer: Result<(), LedgerError>,
    ) -> (result: Result<Payout, Error>)
        ensures
            match result {
                Ok(payout) => old(self)@.settlement_error(height, treasury_balance, transfer)
                    is None && old(self)@.payout == Some(payout),
                Err(error) => old(self)@.settlement_error(height, treasury_balance, transfer)
                    == Some(error),
            },
            final(self)@ == if result is Ok {
                old(self)@.executed()
            } else {
                old(self)@
            },
    {
        let payout = match self.payout_due(height, treasury_balance) {
            Ok(payout) => payout,
            Err(error) => {
                return Err(error);
            },
        };
        match transfer {
            Ok(_) => {
                self.status = ProposalStatus::Executed;
                Ok(payout)
            },
            Err(refusal) => Err(Error::Ledger(refusal)),
        }
    }
}

} // verus!
