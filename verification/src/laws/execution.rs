//! A payout is released exactly when it is due, and once.

use vstd::prelude::*;
use crate::error::{Error, LedgerError};
use crate::laws::invariants::{call_keeps_well_formed, calls_keep_well_formed};
use crate::laws::proposals::proposal_keeps_its_terms;
use crate::laws::runs::lemma_run_splits;
use crate::model::{Call, DaoView};
use crate::primitives::{Balance, BlockNumber};
use crate::proposal::ProposalStatus;

verus! {

/// An execution succeeds exactly when the proposal exists, its window has
/// closed, it has not been executed, strictly more weight was cast in favour
/// than against, the treasury holds strictly more than the payout, and the
/// ledger lets the transfer through. It then marks the proposal as executed
/// and changes nothing else.
pub proof fn execution_succeeds_exactly_when_due(
    state: DaoView,
    id: u32,
    height: BlockNumber,
    treasury_balance: Option<Balance>,
    transfer: Result<(), LedgerError>,
)
    requires
        state.proposals.contains_key(id) ==> state.proposals[id].well_formed(),
    ensures
        state.settlement_error(id, height, treasury_balance, transfer) is None <==> {
            &&& state.proposals.contains_key(id)
            &&& height > state.proposals[id].voting_window.unwrap().end
            &&& state.proposals[id].status != ProposalStatus::Executed
            &&& state.proposals[id].tally.yes > state.proposals[id].tally.no
            &&& treasury_balance is Some
            &&& treasury_balance.unwrap() > state.proposals[id].payout.unwrap().amount
            &&& transfer is Ok
        },
        state.settlement_error(id, height, treasury_balance, transfer) is None ==> {
            let after = state.after_execution(id, height, treasury_balance, transfer);
            &&& after.proposals[id].status == ProposalStatus::Executed
            &&& after == DaoView {
                proposals: state.proposals.insert(id, state.proposals[id].executed()),
                ..state
            }
        },
{
}

/// An executed proposal stays executed, and is never executed again.
///
/// Let the execution of the proposal `id` succeed at `first`. Then, whatever
/// calls follow, the status stays `Executed`, and every execution asked for
/// at a height not below `first` is refused with `ProposalExecuted`,
/// whatever the treasury holds and whatever the ledger answers.
///
/// It speaks of proposals whose identifier no later proposal can take: those
/// below `u32::MAX` in a well-formed state.
pub proof fn executed_is_final(
    state: DaoView,
    id: u32,
    first: BlockNumber,
    treasury_balance: Option<Balance>,
    transfer: Result<(), LedgerError>,
    later: Seq<Call>,
    second: BlockNumber,
    balance_then: Option<Balance>,
    transfer_then: Result<(), LedgerError>,
)
    requires
        state.well_formed(),
        id < u32::MAX,
        state.settlement_error(id, first, treasury_balance, transfer) is None,
        first <= second,
    ensures
        ({
            let then = state.after_execution(id, first, treasury_balance, transfer).after_all(
                later,
            );
            &&& then.proposals.contains_key(id)
            &&& then.proposals[id].status == ProposalStatus::Executed
            &&& then.settlement_error(id, second, balance_then, transfer_then) == Some(
                Error::ProposalExecuted,
            )
            &&& then.after_execution(id, second, balance_then, transfer_then) == then
        }),
{
    let executed = state.after_execution(id, first, treasury_balance, transfer);
    call_keeps_well_formed(
        state,
        Call::ExecuteProposal { proposal_id: id, height: first, treasury_balance, transfer },
    );
    proposal_keeps_its_terms(executed, later, id);
}

/// A proposal is executed at most once.
///
/// Take any run of calls on a well-formed engine. If an execution in the run
/// succeeds, every later execution of the same proposal in the run is
/// refused, whatever the heights, the treasury and the ledger's answers.
///
/// It speaks of proposals whose identifier no later proposal can take: those
/// below `u32::MAX`.
pub proof fn proposal_is_executed_at_most_once(
    state: DaoView,
    run: Seq<Call>,
    id: u32,
    earlier: int,
    later: int,
)
    requires
        state.well_formed(),
        id < u32::MAX,
        0 <= earlier < later < run.len(),
        run[earlier].is_execution_of(id),
        run[later].is_execution_of(id),
        state.after_all(run.take(earlier)).refusal(run[earlier]) is None,
    ensures
        ({
            let refusal = state.after_all(run.take(later)).refusal(run[later]);
            refusal == Some(Error::ProposalExecuted) || refusal == Some(Error::VotingPeriodNotEnded)
        }),
{
    let before = state.after_all(run.take(earlier));
    let between = run.subrange(earlier + 1, later);
    calls_keep_well_formed(state, run.take(earlier));
    call_keeps_well_formed(before, run[earlier]);
    let executed = before.after(run[earlier]);
    proposal_keeps_its_terms(executed, between, id);
    lemma_run_splits(state, run, earlier, later);
}

} // verus!
