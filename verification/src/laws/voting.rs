//! A vote counts once, and only while the window is open.

use vstd::prelude::*;
use crate::error::Error;
use crate::laws::invariants::{
    call_keeps_well_formed, calls_keep_well_formed, refused_call_changes_nothing,
};
use crate::laws::proposals::proposal_keeps_its_terms;
use crate::laws::runs::{
    called_from, heights_never_decrease, lemma_heights_in_order, lemma_run_splits,
    lemma_start_of_run, lemma_windows_open_in_time, none_before, windows_opened_by,
};
use crate::model::{Call, DaoView};
use crate::primitives::{AccountId, BlockNumber};
use crate::proposal::ProposalStatus;

verus! {

/// Once a member has voted inside a window, the calls that follow keep the
/// member's last vote inside it, provided none of them is made at a height
/// below the window's start.
proof fn lemma_vote_marker_stays(
    state: DaoView,
    calls: Seq<Call>,
    caller: AccountId,
    start: BlockNumber,
)
    requires
        state.members.contains_key(caller),
        state.members[caller].last_vote >= start,
        none_before(calls, start),
    ensures
        state.after_all(calls).members.contains_key(caller),
        state.after_all(calls).members[caller].last_vote >= start,
    decreases calls.len(),
{
    if calls.len() > 0 {
        let front = calls.drop_last();
        assert forall|i: int| 0 <= i < front.len() implies called_from(front[i], start) by {
            assert(front[i] == calls[i]);
        }
        lemma_vote_marker_stays(state, front, caller, start);
        assert(called_from(calls[calls.len() - 1], start));
    }
}

/// A member votes at most once in the voting window of a proposal.
///
/// Let `caller` vote on the proposal `id` at `first`, inside its window, and
/// let the vote count. Then, whatever calls follow, a vote by `caller` on the
/// same proposal before the window has closed is refused with `AlreadyVoted`
/// and changes nothing, so the tally stays as it was.
///
/// This holds while block heights do not run backwards: `first` is not below
/// the window's start, and no later call is made below it. It speaks of
/// proposals whose identifier no later proposal can take: those below
/// `u32::MAX` in a well-formed state.
pub proof fn member_votes_once_per_window(
    state: DaoView,
    caller: AccountId,
    id: u32,
    first: BlockNumber,
    approve: bool,
    later: Seq<Call>,
    second: BlockNumber,
    approve_again: bool,
)
    requires
        state.well_formed(),
        id < u32::MAX,
        state.vote_error(caller, first, id) is None,
        state.proposals[id].voting_window.unwrap().start <= first,
        none_before(later, state.proposals[id].voting_window.unwrap().start),
        !state.proposals[id].voting_window.unwrap().closed_at(second),
    ensures
        ({
            let then = state.after_vote(caller, first, id, approve).after_all(later);
            &&& then.vote_error(caller, second, id) == Some(Error::AlreadyVoted)
            &&& then.after_vote(caller, second, id, approve_again) == then
        }),
{
    let window = state.proposals[id].voting_window.unwrap();
    let voted = state.after_vote(caller, first, id, approve);
    call_keeps_well_formed(state, Call::Vote { caller, height: first, proposal_id: id, approve });
    proposal_keeps_its_terms(voted, later, id);
    lemma_vote_marker_stays(voted, later, caller, window.start);
    let then = voted.after_all(later);
    refused_call_changes_nothing(
        then,
        Call::Vote { caller, height: second, proposal_id: id, approve: approve_again },
    );
}

/// A vote that comes after the window has closed is always refused with
/// `VotingPeriodEnded`, whoever casts it, and finalises the status: a
/// submitted proposal becomes approved if and only if strictly more weight
/// was cast in favour than against, and rejected otherwise; a status that
/// was already final stays. Nothing else changes.
pub proof fn late_vote_finalizes(
    state: DaoView,
    caller: AccountId,
    height: BlockNumber,
    id: u32,
    approve: bool,
)
    requires
        state.proposals.contains_key(id),
        state.proposals[id].voting_window is Some,
        height > state.proposals[id].voting_window.unwrap().end,
    ensures
        state.vote_error(caller, height, id) == Some(Error::VotingPeriodEnded),
        ({
            let before = state.proposals[id];
            let after = state.after_vote(caller, height, id, approve);
            &&& after == DaoView { proposals: state.proposals.insert(id, before.finalized()), ..state }
            &&& before.status == ProposalStatus::Submitted ==> (after.proposals[id].status
                == ProposalStatus::Approved <==> before.tally.yes > before.tally.no)
            &&& before.status == ProposalStatus::Submitted ==> (after.proposals[id].status
                == ProposalStatus::Rejected <==> before.tally.yes <= before.tally.no)
            &&& before.status != ProposalStatus::Submitted ==> after.proposals[id].status
                == before.status
        }),
{
}

/// The vote of a member counts at most once on a proposal.
///
/// Take any run of calls in which block heights never run backwards, made
/// on an engine whose voting windows have all opened by the start of the run
/// (a new engine has none). If a vote in the run counts, every later vote in
/// the run by the same member on the same proposal is refused: with
/// `AlreadyVoted` while the window is open, with `VotingPeriodEnded` after.
///
/// It speaks of proposals whose identifier no later proposal can take: those
/// below `u32::MAX` in a well-formed state.
pub proof fn vote_counts_at_most_once(
    state: DaoView,
    run: Seq<Call>,
    from: BlockNumber,
    caller: AccountId,
    id: u32,
    earlier: int,
    later: int,
)
    requires
        state.well_formed(),
        windows_opened_by(state, from),
        heights_never_decrease(run, from),
        id < u32::MAX,
        0 <= earlier < later < run.len(),
        run[earlier].is_vote_by(caller, id),
        run[later].is_vote_by(caller, id),
        state.after_all(run.take(earlier)).refusal(run[earlier]) is None,
    ensures
        ({
            let refusal = state.after_all(run.take(later)).refusal(run[later]);
            refusal == Some(Error::AlreadyVoted) || refusal == Some(Error::VotingPeriodEnded)
        }),
{
    let before = state.after_all(run.take(earlier));
    let between = run.subrange(earlier + 1, later);
    let first = run[earlier].height().unwrap();
    let second = run[later].height().unwrap();
    let approve = run[earlier]->Vote_approve;
    let approve_again = run[later]->Vote_approve;
    assert(run[earlier] == Call::Vote { caller, height: first, proposal_id: id, approve });
    assert(run[later] == Call::Vote {
        caller,
        height: second,
        proposal_id: id,
        approve: approve_again,
    });
    let window = before.proposals[id].voting_window.unwrap();
    calls_keep_well_formed(state, run.take(earlier));
    assert(window.start <= first) by {
        lemma_start_of_run(run, from, earlier);
        lemma_windows_open_in_time(state, run.take(earlier), from);
        lemma_start_of_run(run, from, earlier + 1);
        assert(run.take(earlier + 1).drop_last() =~= run.take(earlier));
        assert(run.take(earlier + 1).last() == run[earlier]);
    }
    assert forall|k: int| 0 <= k < between.len() implies called_from(between[k], window.start) by {
        assert(between[k] == run[earlier + 1 + k]);
        if between[k].height() is Some {
            lemma_heights_in_order(run, from, earlier, earlier + 1 + k);
        }
    }
    let voted = before.after_vote(caller, first, id, approve);
    lemma_run_splits(state, run, earlier, later);
    if window.closed_at(second) {
        call_keeps_well_formed(before, run[earlier]);
        proposal_keeps_its_terms(voted, between, id);
    } else {
        member_votes_once_per_window(
            before,
            caller,
            id,
            first,
            approve,
            between,
            second,
            approve_again,
        );
    }
}

} // verus!
