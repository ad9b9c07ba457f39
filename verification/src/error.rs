//! The failures the engine reports.

use vstd::prelude::*;

verus! {

/// A failure reported by the treasury ledger. The engine never produces one
/// itself: it hands the ledger's answer on, kind and text unchanged.
#[derive(Debug, PartialEq, Eq)]
pub enum LedgerError {
    /// A failure the ledger describes only by a message.
    Custom(String),
    /// The debited account holds less than the amount.
    InsufficientBalance,
    /// The spender's allowance is smaller than the amount.
    InsufficientAllowance,
    /// The recipient is the zero address.
    ZeroRecipientAddress,
    /// The sender is the zero address.
    ZeroSenderAddress,
    /// The recipient refused the transfer.
    SafeTransferCheckFailed(String),
    /// The host refused the privileged call that moves treasury funds.
    CallRuntimeFailed,
}

/// Why an operation of the engine was refused.
#[derive(Debug, PartialEq, Eq)]
pub enum Error {
    /// No proposal is stored under the identifier.
    ProposalNotFound,
    /// The proposal's voting window has closed.
    VotingPeriodEnded,
    /// The caller has never joined.
    MemberNotFound,
    /// The caller's last vote falls inside the proposal's voting window.
    AlreadyVoted,
    /// The proposal's voting window is still open.
    VotingPeriodNotEnded,
    /// The proposal's payout has already been released.
    ProposalExecuted,
    /// The votes in favour do not outweigh the votes against.
    ProposalRejected,
    /// The description is too long to store.
    ExceedsMaxDescriptionLength,
    /// The treasury does not hold more than the payout.
    InsufficientTreasuryFunds,
    /// The proposal lacks its voting window or its payout.
    MalformedProposal,
    /// The ledger refused a transfer.
    Ledger(LedgerError),
}

impl From<LedgerError> for Error {
    fn from(error: LedgerError) -> (e: Error) {
        Error::Ledger(error)
    }
}

impl vstd::std_specs::convert::FromSpecImpl<LedgerError> for Error {
    open spec fn obeys_from_spec() -> bool {
        true
    }

    open spec fn from_spec(error: LedgerError) -> Error {
        Error::Ledger(error)
    }
}

} // verus!
