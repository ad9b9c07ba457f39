//! The engine as a mathematical state machine: its state as maps and
//! numbers, and what each operation makes of a state. The contracts of the
//! executable engine are written over these definitions.

use vstd::prelude::*;
use crate::error::{Error, LedgerError};
use crate::member::Member;
use crate::primitives::{AccountId, Balance, BlockNumber, TokenId};
use crate::proposal::{Payout, ProposalView, DESCRIPTION_LIMIT};

verus! {

/// The state of an engine.
#[verifier::ext_equal]
pub struct DaoView {
    /// The stake record of every account that has joined.
    pub members: Map<AccountId, Member>,
    /// Every proposal, under its identifier.
    pub proposals: Map<u32, ProposalView>,
    /// The identifier that the next proposal gets.
    pub proposals_created: u32,
    /// For how many blocks a new proposal accepts votes.
    pub voting_period: BlockNumber,
    /// The asset in which stakes and payouts are counted.
    pub token_id: TokenId,
    /// The smallest balance an account of the asset may hold.
    pub min_balance: Balance,
    /// The engine's own ledger account, which holds the pooled funds.
    pub treasury: AccountId,
}

/// The identifier that follows `id`; it stops at `u32::MAX`.
pub open spec fn next_id(id: u32) -> u32 {
    if id == u32::MAX {
        u32::MAX
    } else {
        (id + 1) as u32
    }
}

impl DaoView {
    /// The state of an engine that has just been set up: no members, no
    /// proposals, the first identifier is zero.
    pub open spec fn instantiated(
        treasury: AccountId,
        token_id: TokenId,
        voting_period: BlockNumber,
        min_balance: Balance,
    ) -> DaoView {
        DaoView {
            members: Map::empty(),
            proposals: Map::empty(),
            proposals_created: 0,
            voting_period,
            token_id,
            min_balance,
            treasury,
        }
    }

    /// What holds of every state that the operations reach from a new
    /// engine: each proposal is stored under its own identifier, is well
    /// formed, and has an identifier below the next one to be given out,
    /// unless the identifiers have run out.
    pub open spec fn well_formed(self) -> bool {
        forall|id: u32| #[trigger]
            self.proposals.contains_key(id) ==> {
                &&& self.proposals[id].id == id
                &&& self.proposals[id].well_formed()
                &&& (id < self.proposals_created || self.proposals_created == u32::MAX)
            }
    }

    /// The stake record of `account` if it has joined.
    pub open spec fn voter(self, account: AccountId) -> Option<Member> {
        if self.members.contains_key(account) {
            Some(self.members[account])
        } else {
            None
        }
    }

    /// The stake record of `account`; that of an account that has never
    /// joined holds no power and no vote.
    pub open spec fn member(self, account: AccountId) -> Member {
        match self.voter(account) {
            Some(member) => member,
            None => Member::unstaked(),
        }
    }

    /// The proposal stored under `id`, if there is one.
    pub open spec fn proposal(self, id: u32) -> Option<ProposalView> {
        if self.proposals.contains_key(id) {
            Some(self.proposals[id])
        } else {
            None
        }
    }

    /// The state after `caller` asked to stake `amount` and the ledger
    /// answered `transfer` to moving the funds into the treasury. A refused
    /// transfer changes nothing; after a transfer that went through, the
    /// caller's power has grown by `amount`.
    pub open spec fn after_join(
        self,
        caller: AccountId,
        amount: Balance,
        transfer: Result<(), LedgerError>,
    ) -> DaoView {
        if transfer is Ok {
            DaoView { members: self.members.insert(caller, self.member(caller).staked(amount)), ..self }
        } else {
            self
        }
    }

    /// Whether a proposal with this description can be created.
    pub open spec fn creation_error(description: Seq<u8>) -> Option<Error> {
        if description.len() >= DESCRIPTION_LIMIT {
            Some(Error::ExceedsMaxDescriptionLength)
        } else {
            None
        }
    }

    /// The state after a proposal was asked for at `height`. A description
    /// that is too long changes nothing. Otherwise the new proposal is stored
    /// under the next identifier, and the identifier after it comes next.
    pub open spec fn after_create(
        self,
        height: BlockNumber,
        beneficiary: AccountId,
        amount: Balance,
        description: Seq<u8>,
    ) -> DaoView {
        if DaoView::creation_error(description) is None {
            DaoView {
                proposals: self.proposals.insert(
                    self.proposals_created,
                    ProposalView::opened(
                        self.proposals_created,
                        description,
                        Payout { beneficiary, amount },
                        height,
                        self.voting_period,
                    ),
                ),
                proposals_created: next_id(self.proposals_created),
                ..self
            }
        } else {
            self
        }
    }

    /// The first reason, in the order in which a vote is checked, why
    /// `caller` may not vote on proposal `id` at `height`; `None` if the vote
    /// counts.
    pub open spec fn vote_error(
        self,
        caller: AccountId,
        height: BlockNumber,
        id: u32,
    ) -> Option<Error> {
        match self.proposal(id) {
            None => Some(Error::ProposalNotFound),
            Some(proposal) => proposal.ballot_error(self.voter(caller), height),
        }
    }

    /// The state after `caller` tried to vote on proposal `id` at `height`.
    /// A vote that counts adds the caller's power to the tally and moves the
    /// caller's last vote to `height`. A vote that comes after the window
    /// has closed finalises the proposal's status. Any other refused vote
    /// changes nothing.
    pub open spec fn after_vote(
        self,
        caller: AccountId,
        height: BlockNumber,
        id: u32,
        approve: bool,
    ) -> DaoView {
        match self.proposal(id) {
            None => self,
            Some(proposal) => DaoView {
                proposals: self.proposals.insert(
                    id,
                    proposal.after_ballot(self.voter(caller), height, approve),
                ),
                members: if self.vote_error(caller, height, id) is None {
                    self.members.insert(caller, self.member(caller).voted_at(height))
                } else {
                    self.members
                },
                ..self
            },
        }
    }

    /// The first reason, in the order in which an execution is checked, why
    /// the payout of proposal `id` is not due at `height`; `None` if it is.
    pub open spec fn execution_error(
        self,
        id: u32,
        height: BlockNumber,
        treasury_balance: Option<Balance>,
    ) -> Option<Error> {
        match self.proposal(id) {
            None => Some(Error::ProposalNotFound),
            Some(proposal) => proposal.execution_error(height, treasury_balance),
        }
    }

    /// Why the execution of proposal `id` fails once the ledger has answered
    /// `transfer` to moving the payout; `None` if it succeeds.
    pub open spec fn settlement_error(
        self,
        id: u32,
        height: BlockNumber,
        treasury_balance: Option<Balance>,
        transfer: Result<(), LedgerError>,
    ) -> Option<Error> {
        match self.proposal(id) {
            None => Some(Error::ProposalNotFound),
            Some(proposal) => proposal.settlement_error(height, treasury_balance, transfer),
        }
    }

    /// The state after the execution of proposal `id` was asked for at
    /// `height`. An execution that succeeds marks the proposal as executed;
    /// one that fails changes nothing.
    pub open spec fn after_execution(
        self,
        id: u32,
        height: BlockNumber,
        treasury_balance: Option<Balance>,
        transfer: Result<(), LedgerError>,
    ) -> DaoView {
        if self.settlement_error(id, height, treasury_balance, transfer) is None {
            DaoView { proposals: self.proposals.insert(id, self.proposals[id].executed()), ..self }
        } else {
            self
        }
    }
}

/// One call of an operation that changes the engine, with everything the
/// host supplies for it.
pub enum Call {
    /// `caller` stakes `amount`; the ledger answered `transfer`.
    Join { caller: AccountId, amount: Balance, transfer: Result<(), LedgerError> },
    /// `caller` proposes at `height` to pay `amount` to `beneficiary`.
    CreateProposal {
        caller: AccountId,
        height: BlockNumber,
        beneficiary: AccountId,
        amount: Balance,
        description: Seq<u8>,
    },
    /// `caller` votes at `height` on the proposal `proposal_id`.
    Vote { caller: AccountId, height: BlockNumber, proposal_id: u32, approve: bool },
    /// The proposal `proposal_id` is executed at `height`; the ledger
    /// reported `treasury_balance` and answered `transfer`.
    ExecuteProposal {
        proposal_id: u32,
        height: BlockNumber,
        treasury_balance: Option<Balance>,
        transfer: Result<(), LedgerError>,
    },
}

impl Call {
    /// The block height at which the call is made, for the calls that
    /// depend on one.
    pub open spec fn height(self) -> Option<BlockNumber> {
        match self {
            Call::Join { .. } => None,
            Call::CreateProposal { height, .. } => Some(height),
            Call::Vote { height, .. } => Some(height),
            Call::ExecuteProposal { height, .. } => Some(height),
        }
    }

    /// Whether the call is a vote by `caller` on the proposal `id`.
    pub open spec fn is_vote_by(self, caller: AccountId, id: u32) -> bool {
        self matches Call::Vote { caller: voter, proposal_id, .. } && voter == caller
            && proposal_id == id
    }

    /// Whether the call is an execution of the proposal `id`.
    pub open spec fn is_execution_of(self, id: u32) -> bool {
        self matches Call::ExecuteProposal { proposal_id, .. } && proposal_id == id
    }
}

impl DaoView {
    /// Why `call` is refused in this state; `None` if it succeeds.
    pub open spec fn refusal(self, call: Call) -> Option<Error> {
        match call {
            Call::Join { transfer, .. } => match transfer {
                Err(refusal) => Some(Error::Ledger(refusal)),
                Ok(_) => None,
            },
            Call::CreateProposal { description, .. } => DaoView::creation_error(description),
            Call::Vote { caller, height, proposal_id, .. } => self.vote_error(
                caller,
                height,
                proposal_id,
            ),
            Call::ExecuteProposal {
                proposal_id,
                height,
                treasury_balance,
                transfer,
            } => self.settlement_error(proposal_id, height, treasury_balance, transfer),
        }
    }

    /// The state after `call`.
    pub open spec fn after(self, call: Call) -> DaoView {
        match call {
            Call::Join { caller, amount, transfer } => self.after_join(caller, amount, transfer),
            Call::CreateProposal {
                height,
                beneficiary,
                amount,
                description,
                ..
            } => self.after_create(height, beneficiary, amount, description),
            Call::Vote { caller, height, proposal_id, approve } => self.after_vote(
                caller,
                height,
                proposal_id,
                approve,
            ),
            Call::ExecuteProposal {
                proposal_id,
                height,
                treasury_balance,
                transfer,
            } => self.after_execution(proposal_id, height, treasury_balance, transfer),
        }
    }

    /// The state after all of `calls`, one after the other.
    pub open spec fn after_all(self, calls: Seq<Call>) -> DaoView
        decreases calls.len(),
    {
        if calls.len() == 0 {
            self
        } else {
            self.after_all(calls.drop_last()).after(calls.last())
        }
    }
}

} // verus!
