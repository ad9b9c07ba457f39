//! What every call keeps: the shape of the state, the configuration, and
//! the records that exist.

use vstd::prelude::*;
use crate::error::Error;
use crate::model::{Call, DaoView};
use crate::primitives::{AccountId, Balance, BlockNumber, TokenId};

verus! {

/// A new engine is well formed.
pub proof fn new_engine_is_well_formed(
    treasury: AccountId,
    token_id: TokenId,
    voting_period: BlockNumber,
    min_balance: Balance,
)
    ensures
        DaoView::instantiated(treasury, token_id, voting_period, min_balance).well_formed(),
{
}

/// Every call, refused or not, leaves a well-formed state well formed.
pub proof fn call_keeps_well_formed(state: DaoView, call: Call)
    requires
        state.well_formed(),
    ensures
        state.after(call).well_formed(),
{
}

/// Every state that calls reach from a well-formed state is well formed.
pub proof fn calls_keep_well_formed(state: DaoView, calls: Seq<Call>)
    requires
        state.well_formed(),
    ensures
        state.after_all(calls).well_formed(),
    decreases calls.len(),
{
    if calls.len() > 0 {
        calls_keep_well_formed(state, calls.drop_last());
        call_keeps_well_formed(state.after_all(calls.drop_last()), calls.last());
    }
}

/// The configuration is set once: no call changes the voting period, the
/// asset, the minimum balance or the treasury account.
pub proof fn configuration_is_fixed(state: DaoView, calls: Seq<Call>)
    ensures
        state.after_all(calls).voting_period == state.voting_period,
        state.after_all(calls).token_id == state.token_id,
        state.after_all(calls).min_balance == state.min_balance,
        state.after_all(calls).treasury == state.treasury,
    decreases calls.len(),
{
    if calls.len() > 0 {
        configuration_is_fixed(state, calls.drop_last());
    }
}

/// No call removes a member or a proposal.
pub proof fn nothing_is_deleted(state: DaoView, calls: Seq<Call>)
    ensures
        forall|account: AccountId| #[trigger]
            state.members.contains_key(account) ==> state.after_all(calls).members.contains_key(
                account,
            ),
        forall|id: u32| #[trigger]
            state.proposals.contains_key(id) ==> state.after_all(calls).proposals.contains_key(id),
    decreases calls.len(),
{
    if calls.len() > 0 {
        nothing_is_deleted(state, calls.drop_last());
    }
}

/// A refused call changes nothing, with one exception: a vote that comes
/// after the window has closed changes the status of its proposal, and
/// nothing else, to what finalisation gives.
pub proof fn refused_call_changes_nothing(state: DaoView, call: Call)
    requires
        state.refusal(call) is Some,
    ensures
        state.refusal(call) != Some(Error::VotingPeriodEnded) ==> state.after(call) == state,
        state.refusal(call) == Some(Error::VotingPeriodEnded) ==> ({
            &&& call matches Call::Vote { proposal_id, .. }
            &&& state.proposals.contains_key(proposal_id)
            &&& state.after(call) == DaoView {
                proposals: state.proposals.insert(
                    proposal_id,
                    state.proposals[proposal_id].finalized(),
                ),
                ..state
            }
        }),
{
    match call {
        Call::Vote { caller, height, proposal_id, approve } => {
            if state.proposals.contains_key(proposal_id) {
                let proposal = state.proposals[proposal_id];
                if state.refusal(call) != Some(Error::VotingPeriodEnded) {
                    assert(proposal.after_ballot(state.voter(caller), height, approve) == proposal);
                    assert(state.proposals.insert(proposal_id, proposal) =~= state.proposals);
                }
            }
        },
        _ => {},
    }
}

/// In a well-formed state no call is refused for a malformed proposal.
pub proof fn well_formed_states_hold_no_malformed_proposal(state: DaoView, call: Call)
    requires
        state.well_formed(),
    ensures
        state.refusal(call) != Some(Error::MalformedProposal),
{
}

} // verus!
