//! Proposals are stored as they are created, and keep their terms.

use vstd::prelude::*;
use crate::model::{next_id, Call, DaoView};
use crate::primitives::{AccountId, Balance, BlockNumber};
use crate::proposal::{Payout, ProposalStatus, Tally};

verus! {

/// A proposal that is created can be read back: it is stored under the
/// identifier that was next, is submitted, has no votes, and pays the given
/// amount to the given beneficiary. In a well-formed state whose identifiers
/// have not run out, that identifier was not in use before.
pub proof fn created_proposal_is_stored(
    state: DaoView,
    height: BlockNumber,
    beneficiary: AccountId,
    amount: Balance,
    description: Seq<u8>,
)
    requires
        DaoView::creation_error(description) is None,
    ensures
        ({
            let id = state.proposals_created;
            let after = state.after_create(height, beneficiary, amount, description);
            &&& after.proposal(id) is Some
            &&& after.proposals[id].id == id
            &&& after.proposals[id].description == description
            &&& after.proposals[id].status == ProposalStatus::Submitted
            &&& after.proposals[id].tally == Tally { yes: 0, no: 0 }
            &&& after.proposals[id].payout == Some(Payout { beneficiary, amount })
            &&& after.proposals[id].voting_window is Some
            &&& after.proposals[id].voting_window.unwrap().start == height
            &&& state.well_formed() && id < u32::MAX ==> !state.proposals.contains_key(id)
        }),
{
}

/// Identifiers are given out in order: the next identifier never goes
/// back, and a proposal that is created moves it on by one until it stops at
/// `u32::MAX`.
pub proof fn identifiers_are_given_in_order(state: DaoView, calls: Seq<Call>)
    ensures
        state.after_all(calls).proposals_created >= state.proposals_created,
        forall|call: Call|
            call is CreateProposal && state.refusal(call) is None ==> #[trigger] state.after(
                call,
            ).proposals_created == next_id(state.proposals_created),
    decreases calls.len(),
{
    if calls.len() > 0 {
        identifiers_are_given_in_order(state, calls.drop_last());
    }
}

/// A proposal keeps its terms: whatever calls follow, its description, its
/// voting window and its payout stay as they were created, and once it is
/// executed it stays executed. Only the tally and the status move.
///
/// It speaks of proposals whose identifier no later proposal can take: those
/// below `u32::MAX` in a well-formed state.
pub proof fn proposal_keeps_its_terms(state: DaoView, calls: Seq<Call>, id: u32)
    requires
        state.well_formed(),
        state.proposals.contains_key(id),
        id < u32::MAX,
    ensures
        state.after_all(calls).well_formed(),
        state.after_all(calls).proposals.contains_key(id),
        state.after_all(calls).proposals[id].voting_window == state.proposals[id].voting_window,
        state.after_all(calls).proposals[id].payout == state.proposals[id].payout,
        state.after_all(calls).proposals[id].description == state.proposals[id].description,
        state.proposals[id].status == ProposalStatus::Executed ==> state.after_all(
            calls,
        ).proposals[id].status == ProposalStatus::Executed,
    decreases calls.len(),
{
    if calls.len() > 0 {
        proposal_keeps_its_terms(state, calls.drop_last(), id);
    }
}

} // verus!
