//! Stake-weighted treasury governance: members stake funds, open spending
//! proposals, vote on them inside a bounded window and release approved
//! payouts from a shared treasury.
//!
//! [`Dao`] is the engine. It keeps the members and the proposals, and
//! decides; it does no outside work. The host supplies the caller, the block
//! height and the answers of the treasury ledger with each call, and gets
//! back the events to announce.
//!
//! - To let an account join, the host asks the ledger to move the stake into
//!   the treasury and hands the answer to [`Dao::join`].
//! - To execute a proposal, the host reads the treasury's balance and asks
//!   [`Dao::authorize_execution`] whether the payout is due; if it is, the
//!   host asks the ledger to move the payout and hands the answer to
//!   [`Dao::execute_proposal`], which alone marks the proposal as executed.
//! - Creating a proposal and voting need nothing from the ledger.
//! - A host that keeps the records in keyed storage builds the engine for a
//!   call from the records that the call names, with [`Dao::from_parts`],
//!   and writes back what the engine holds afterwards; [`laws::locality`]
//!   shows that this gives the same as an engine that holds everything.
//!
//! [`model`] states what each operation does to the state of the engine, and
//! [`laws`] what follows for every run of calls.
//!
//! [`registry`] stands apart from the engine. It holds the decisions behind
//! the interface of the chain's non-fungible registry, in the same manner:
//! the host reads and writes, the library decides.

pub mod engine;
pub mod error;
pub mod event;
pub mod laws;
pub mod member;
pub mod member_store;
pub mod model;
pub mod primitives;
pub mod proposal;
pub mod proposal_store;
pub mod registry;
pub mod table;

pub use crate::engine::Dao;
pub use crate::error::{Error, LedgerError};
pub use crate::event::Event;
pub use crate::member::Member;
pub use crate::member_store::MemberStore;
pub use crate::primitives::{AccountId, Balance, BlockNumber, TokenId};
pub use crate::proposal::{Payout, Proposal, ProposalStatus, Tally, VotingWindow};
pub use crate::proposal_store::ProposalStore;
