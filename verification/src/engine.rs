//! The governance engine: the two stores, the configuration, and the
//! operations that hosts call.
//!
//! The engine performs no outside work itself. Where an operation depends on
//! the treasury ledger, the host asks the ledger and hands the answer in;
//! where an operation has something to announce, it hands the events out.
//! The caller and the current block height are arguments of each call.

use vstd::prelude::*;
use crate::error::{Error, LedgerError};
use crate::event::Event;
use crate::member::Member;
use crate::member_store::MemberStore;
use crate::model::DaoView;
use crate::primitives::{AccountId, Balance, BlockNumber, TokenId};
use crate::proposal::{Payout, Proposal};
use crate::proposal_store::ProposalStore;

verus! {

/// A treasury governed by its staked members.
pub struct Dao {
    proposals: ProposalStore,
    members: MemberStore,
    voting_period: BlockNumber,
    token_id: TokenId,
    min_balance: Balance,
    treasury: AccountId,
    proposals_created: u32,
}

impl View for Dao {
    type V = DaoView;

    closed spec fn view(&self) -> DaoView {
        DaoView {
            members: self.members@,
            proposals: self.proposals@,
            proposals_created: self.proposals_created,
            voting_period: self.voting_period,
            token_id: self.token_id,
            min_balance: self.min_balance,
            treasury: self.treasury,
        }
    }
}

impl Dao {
    /// Sets up an engine for the asset `token_id`, with `treasury` as its
    /// own ledger account.
    ///
    /// `asset_created` is the ledger's answer to creating the asset with the
    /// treasury as its admin and `min_balance` as its minimum balance. If the
    /// ledger refused, so does `new`, with the ledger's error. Otherwise the
    /// engine starts without members and proposals, and announces the asset.
    pub fn new(
        treasury: AccountId,
        token_id: TokenId,
        voting_period: BlockNumber,
        min_balance: Balance,
        asset_created: Result<(), LedgerError>,
    ) -> (result: Result<(Dao, Vec<Event>), LedgerError>)
        ensures
            match result {
                Ok((dao, events)) => {
                    &&& asset_created is Ok
                    &&& dao@ == DaoView::instantiated(treasury, token_id, voting_period, min_balance)
                    &&& dao@.well_formed()
                    &&& events@ == seq![
                        Event::Created { id: token_id, creator: treasury, admin: treasury },
                    ]
                },
                Err(refusal) => asset_created == Err::<(), LedgerError>(refusal),
            },
    {
        match asset_created {
            Err(refusal) => Err(refusal),
            Ok(_) => {
                let dao = Dao {
                    proposals: ProposalStore::new(),
                    members: MemberStore::new(),
                    voting_period,
                    token_id,
                    min_balance,
                    treasury,
                    proposals_created: 0,
                };
                assert(dao@ =~= DaoView::instantiated(
                    treasury,
                    token_id,
                    voting_period,
                    min_balance,
                ));
                Ok((dao, vec![Event::Created { id: token_id, creator: treasury, admin: treasury }]))
            },
        }
    }

    /// Puts an engine together from what it held before, as a host does
    /// that writes the state down between calls. Any stores and numbers make
    /// an engine. Handed what an engine held, it gives that engine back; what
    /// is handed in otherwise need not be well formed, and every operation
    /// still does what its contract says.
    pub fn from_parts(
        members: MemberStore,
        proposals: ProposalStore,
        proposals_created: u32,
        voting_period: BlockNumber,
        token_id: TokenId,
        min_balance: Balance,
        treasury: AccountId,
    ) -> (dao: Dao)
        ensures
            dao@ == (DaoView {
                members: members@,
                proposals: proposals@,
                proposals_created,
                voting_period,
                token_id,
                min_balance,
                treasury,
            }),
    {
        Dao { proposals, members, voting_period, token_id, min_balance, treasury, proposals_created }
    }

    /// The membership store.
    pub fn members(&self) -> (members: &MemberStore)
        ensures
            members@ == self@.members,
    {
        &self.members
    }

    /// The proposal store.
    pub fn proposals(&self) -> (proposals: &ProposalStore)
        ensures
            proposals@ == self@.proposals,
    {
        &self.proposals
    }

    /// For how many blocks a new proposal accepts votes.
    pub fn voting_period(&self) -> (period: BlockNumber)
        ensures
            period == self@.voting_period,
    {
        self.voting_period
    }

    /// The asset in which stakes and payouts are counted.
    pub fn token_id(&self) -> (token_id: TokenId)
        ensures
            token_id == self@.token_id,
    {
        self.token_id
    }

    /// The minimum balance the asset was created with.
    pub fn min_balance(&self) -> (min_balance: Balance)
        ensures
            min_balance == self@.min_balance,
    {
        self.min_balance
    }

    /// The engine's own ledger account.
    pub fn treasury(&self) -> (treasury: AccountId)
        ensures
            treasury == self@.treasury,
    {
        self.treasury
    }

    /// The identifier that the next proposal gets.
    pub fn proposals_created(&self) -> (count: u32)
        ensures
            count == self@.proposals_created,
    {
        self.proposals_created
    }

    /// The stake record of `account`; an account that has never joined has
    /// no power and no vote.
    pub fn get_member(&self, account: AccountId) -> (member: Member)
        ensures
            member == self@.member(account),
    {
        match self.members.get(&account) {
            Some(member) => member,
            None => Member::new(),
        }
    }

    /// A copy of the proposal stored under `proposal_id`, if there is one.
    pub fn get_proposal(&self, proposal_id: u32) -> (found: Option<Proposal>)
        ensures
            match found {
                Some(proposal) => self@.proposal(proposal_id) == Some(proposal@),
                None => self@.proposal(proposal_id) is None,
            },
    {
        match self.proposals.get(proposal_id) {
            Some(proposal) => Some(proposal.clone()),
            None => None,
        }
    }

    /// Makes `caller` a member, or adds to the stake of one.
    ///
    /// `transfer` is the ledger's answer to moving `amount` of the asset
    /// from `caller` to the treasury. If the ledger refused, so does `join`,
    /// with the ledger's error, and nothing changes. Otherwise the caller's
    /// voting power grows by `amount`, stopping at `Balance::MAX`, the
    /// caller's last vote stays, and the transfer is announced. An amount of
    /// zero is taken like any other: it makes the caller a member without
    /// power.
    pub fn join(
        &mut self,
        caller: AccountId,
        amount: Balance,
        transfer: Result<(), LedgerError>,
    ) -> (result: Result<Vec<Event>, Error>)
        ensures
            match result {
                Ok(events) => transfer is Ok && events@ == seq![
                    Event::Transfer {
                        from: Some(caller),
                        to: Some(old(self)@.treasury),
                        value: amount,
                    },
                ],
                Err(error) => transfer matches Err(refusal) && error == Error::Ledger(refusal),
            },
            final(self)@ == old(self)@.after_join(caller, amount, transfer),
            old(self)@.well_formed() ==> final(self)@.well_formed(),
    {
        match transfer {
            Err(refusal) => Err(Error::Ledger(refusal)),
            Ok(_) => {
                let record = self.get_member(caller).stake(amount);
                self.members.insert(caller, record);
                assert(self@ =~= old(self)@.after_join(caller, amount, transfer));
                Ok(
                    vec![
                        Event::Transfer { from: Some(caller), to: Some(self.treasury), value: amount },
                    ],
                )
            },
        }
    }

    /// Opens a proposal to pay `amount` to `beneficiary`. Any caller may
    /// propose, member or not.
    ///
    /// A description of `DESCRIPTION_LIMIT` bytes or more is refused with
    /// `ExceedsMaxDescriptionLength`, and nothing changes. Otherwise the
    /// proposal gets the next identifier, is submitted without votes, and
    /// accepts votes from `height` on for the configured voting period; its
    /// creation is announced under its identifier.
    pub fn create_proposal(
        &mut self,
        caller: AccountId,
        height: BlockNumber,
        beneficiary: AccountId,
        amount: Balance,
        description: Vec<u8>,
    ) -> (result: Result<Vec<Event>, Error>)
        ensures
            match result {
                Ok(events) => DaoView::creation_error(description@) is None && events@ == seq![
                    Event::Created {
                        id: old(self)@.proposals_created,
                        creator: caller,
                        admin: old(self)@.treasury,
                    },
                ],
                Err(error) => DaoView::creation_error(description@) == Some(error),
            },
            final(self)@ == old(self)@.after_create(height, beneficiary, amount, description@),
            old(self)@.well_formed() ==> final(self)@.well_formed(),
    {
        let id = self.proposals_created;
        let ghost text = description@;
        let proposal = match Proposal::open(
            id,
            description,
            Payout { beneficiary, amount },
            height,
            self.voting_period,
        ) {
            Ok(proposal) => proposal,
            Err(error) => {
                return Err(error);
            },
        };
        self.proposals.insert(proposal);
        self.proposals_created = id.saturating_add(1);
        assert(self@ =~= old(self)@.after_create(height, beneficiary, amount, text));
        Ok(vec![Event::Created { id, creator: caller, admin: self.treasury }])
    }

    /// Lets `caller` vote on the proposal `proposal_id` at `height`, with
    /// the caller's whole voting power.
    ///
    /// The checks come in this order: no such proposal is
    /// `ProposalNotFound`; a proposal without a window is
    /// `MalformedProposal`; after the window has closed the proposal's status
    /// is finalised and kept, and the vote is refused with
    /// `VotingPeriodEnded`; a caller who has never joined is
    /// `MemberNotFound`; a caller whose last vote falls at or after the
    /// window's start is `AlreadyVoted`, whichever proposal that vote was
    /// cast on. A vote that passes adds the caller's power to the side it was
    /// cast for, moves the caller's last vote to `height`, and is announced.
    pub fn vote(
        &mut self,
        caller: AccountId,
        height: BlockNumber,
        proposal_id: u32,
        approve: bool,
    ) -> (result: Result<Vec<Event>, Error>)
        ensures
            match result {
                Ok(events) => old(self)@.vote_error(caller, height, proposal_id) is None
                    && events@ == seq![Event::Voted { who: Some(caller), when: Some(height) }],
                Err(error) => old(self)@.vote_error(caller, height, proposal_id) == Some(error),
            },
            final(self)@ == old(self)@.after_vote(caller, height, proposal_id, approve),
            old(self)@.well_formed() ==> final(self)@.well_formed(),
    {
        let mut proposal = match self.proposals.get(proposal_id) {
            Some(proposal) => proposal.clone(),
            None => {
                return Err(Error::ProposalNotFound);
            },
        };
        let voter = self.members.get(&caller);
        match proposal.cast_vote(voter, height, approve) {
            Ok(member) => {
                self.proposals.insert(proposal);
                self.members.insert(caller, member);
                assert(self@ =~= old(self)@.after_vote(caller, height, proposal_id, approve));
                Ok(vec![Event::Voted { who: Some(caller), when: Some(height) }])
            },
            Err(Error::VotingPeriodEnded) => {
                self.proposals.insert(proposal);
                assert(self@ =~= old(self)@.after_vote(caller, height, proposal_id, approve));
                Err(Error::VotingPeriodEnded)
            },
            Err(error) => {
                assert(self@ =~= old(self)@.after_vote(caller, height, proposal_id, approve));
                Err(error)
            },
        }
    }

    /// Decides whether the payout of the proposal `proposal_id` is due at
    /// `height`, and returns it if so. Nothing changes.
    ///
    /// `treasury_balance` is what the ledger reports for the treasury, `None`
    /// if it reports nothing. The checks come in this order: no such
    /// proposal is `ProposalNotFound`; a proposal without a window or a
    /// payout is `MalformedProposal`; an open window is
    /// `VotingPeriodNotEnded`; an executed proposal is `ProposalExecuted`; a
    /// tally that does not approve is `ProposalRejected`; a treasury that
    /// does not hold strictly more than the amount is
    /// `InsufficientTreasuryFunds`.
    pub fn authorize_execution(
        &self,
        proposal_id: u32,
        height: BlockNumber,
        treasury_balance: Option<Balance>,
    ) -> (result: Result<Payout, Error>)
        ensures
            match result {
                Ok(payout) => self@.execution_error(proposal_id, height, treasury_balance) is None
                    && self@.proposals[proposal_id].payout == Some(payout),
                Err(error) => self@.execution_error(proposal_id, height, treasury_balance) == Some(
                    error,
                ),
            },
    {
        match self.proposals.get(proposal_id) {
            Some(proposal) => proposal.payout_due(height, treasury_balance),
            None => Err(Error::ProposalNotFound),
        }
    }

    /// Executes the proposal `proposal_id` at `height`, once the ledger has
    /// answered the transfer of its payout.
    ///
    /// The payout must be due, as `authorize_execution` decides it with the
    /// same arguments; if it is not, the same error is returned. `transfer`
    /// is the ledger's answer to moving the payout from the treasury to the
    /// beneficiary, and is read only if the payout is due. If the ledger
    /// refused, so does `execute_proposal`, with the ledger's error. In
    /// either case nothing changes. Otherwise the proposal is marked as
    /// executed, and the transfer and its acknowledgement are announced.
    pub fn execute_proposal(
        &mut self,
        proposal_id: u32,
        height: BlockNumber,
        treasury_balance: Option<Balance>,
        transfer: Result<(), LedgerError>,
    ) -> (result: Result<Vec<Event>, Error>)
        ensures
            match result {
                Ok(events) => {
                    &&& old(self)@.settlement_error(proposal_id, height, treasury_balance, transfer)
                        is None
                    &&& old(self)@.proposals[proposal_id].payout matches Some(payout)
                    &&& events@ == seq![
                        Event::Transfer {
                            from: Some(old(self)@.treasury),
                            to: Some(payout.beneficiary),
                            value: payout.amount,
                        },
                        Event::Approval {
                            owner: old(self)@.treasury,
                            spender: old(self)@.treasury,
                            value: payout.amount,
                        },
                    ]
                },
                Err(error) => old(self)@.settlement_error(
                    proposal_id,
                    height,
                    treasury_balance,
                    transfer,
                ) == Some(error),
            },
            final(self)@ == old(self)@.after_execution(
                proposal_id,
                height,
                treasury_balance,
                transfer,
            ),
            old(self)@.well_formed() ==> final(self)@.well_formed(),
    {
        let mut proposal = match self.proposals.get(proposal_id) {
            Some(proposal) => proposal.clone(),
            None => {
                return Err(Error::ProposalNotFound);
            },
        };
        match proposal.settle(height, treasury_balance, transfer) {
            Ok(payout) => {
                self.proposals.insert(proposal);
                assert(self@ =~= old(self)@.after_execution(
                    proposal_id,
                    height,
                    treasury_balance,
                    transfer,
                ));
                Ok(
                    vec![
                        Event::Transfer {
                            from: Some(self.treasury),
                            to: Some(payout.beneficiary),
                            value: payout.amount,
                        },
                        Event::Approval {
                            owner: self.treasury,
                            spender: self.treasury,
                            value: payout.amount,
                        },
                    ],
                )
            },
            Err(error) => Err(error),
        }
    }
}

} // verus!
