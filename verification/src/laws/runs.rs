//! Runs of calls and the block heights at which they are made.

use vstd::prelude::*;
use crate::model::{Call, DaoView};
use crate::primitives::BlockNumber;

verus! {

/// The call is not made at a height below `height`. A call that depends on
/// no height is not.
pub open spec fn called_from(call: Call, height: BlockNumber) -> bool {
    call.height() matches Some(at) ==> height <= at
}

/// No call among `calls` is made at a height below `height`.
pub open spec fn none_before(calls: Seq<Call>, height: BlockNumber) -> bool {
    forall|i: int| 0 <= i < calls.len() ==> called_from(#[trigger] calls[i], height)
}

/// The height of the last call among `calls` that is made at one; `from` if
/// there is none.
pub open spec fn latest_height(calls: Seq<Call>, from: BlockNumber) -> BlockNumber
    decreases calls.len(),
{
    if calls.len() == 0 {
        from
    } else {
        match calls.last().height() {
            Some(height) => height,
            None => latest_height(calls.drop_last(), from),
        }
    }
}

/// Block heights never run backwards in `calls`: each call that is made at
/// a height is made at `from` or later, and not before the call that
/// precedes it.
pub open spec fn heights_never_decrease(calls: Seq<Call>, from: BlockNumber) -> bool
    decreases calls.len(),
{
    calls.len() == 0 || {
        &&& heights_never_decrease(calls.drop_last(), from)
        &&& (calls.last().height() matches Some(height) ==> latest_height(
            calls.drop_last(),
            from,
        ) <= height)
    }
}

/// Every voting window in `state` has opened by `height`.
pub open spec fn windows_opened_by(state: DaoView, height: BlockNumber) -> bool {
    forall|id: u32| #[trigger]
        state.proposals.contains_key(id) ==> (state.proposals[id].voting_window matches Some(
            window,
        ) ==> window.start <= height)
}

/// Calls made one run after another are one run.
proof fn lemma_runs_compose(state: DaoView, first: Seq<Call>, then: Seq<Call>)
    ensures
        state.after_all(first + then) == state.after_all(first).after_all(then),
    decreases then.len(),
{
    if then.len() == 0 {
        assert(first + then =~= first);
    } else {
        assert((first + then).drop_last() =~= first + then.drop_last());
        assert((first + then).last() == then.last());
        lemma_runs_compose(state, first, then.drop_last());
    }
}

/// A run up to a later call is the run up to an earlier call, that call,
/// and the calls between the two.
pub(crate) proof fn lemma_run_splits(state: DaoView, run: Seq<Call>, earlier: int, later: int)
    requires
        0 <= earlier < later <= run.len(),
    ensures
        state.after_all(run.take(later)) == state.after_all(run.take(earlier)).after(
            run[earlier],
        ).after_all(run.subrange(earlier + 1, later)),
{
    let upto = run.take(earlier) + seq![run[earlier]];
    assert(run.take(later) =~= upto + run.subrange(earlier + 1, later));
    lemma_runs_compose(state, upto, run.subrange(earlier + 1, later));
    assert(upto.drop_last() =~= run.take(earlier));
}

/// Where heights never run backwards, they do not in the first `count`
/// calls either.
pub(crate) proof fn lemma_start_of_run(calls: Seq<Call>, from: BlockNumber, count: int)
    requires
        heights_never_decrease(calls, from),
        0 <= count <= calls.len(),
    ensures
        heights_never_decrease(calls.take(count), from),
    decreases calls.len(),
{
    if count < calls.len() {
        lemma_start_of_run(calls.drop_last(), from, count);
        assert(calls.drop_last().take(count) =~= calls.take(count));
    } else {
        assert(calls.take(count) =~= calls);
    }
}

/// Where heights never run backwards, the latest height is not below the
/// start.
pub(crate) proof fn lemma_latest_height_from_start(calls: Seq<Call>, from: BlockNumber)
    requires
        heights_never_decrease(calls, from),
    ensures
        from <= latest_height(calls, from),
    decreases calls.len(),
{
    if calls.len() > 0 {
        lemma_latest_height_from_start(calls.drop_last(), from);
    }
}

/// Where heights never run backwards, every height lies between the start
/// and the latest height.
pub(crate) proof fn lemma_heights_in_range(calls: Seq<Call>, from: BlockNumber, i: int)
    requires
        heights_never_decrease(calls, from),
        0 <= i < calls.len(),
    ensures
        calls[i].height() matches Some(height) ==> from <= height <= latest_height(calls, from),
    decreases calls.len(),
{
    let front = calls.drop_last();
    lemma_latest_height_from_start(front, from);
    if i < front.len() {
        assert(front[i] == calls[i]);
        lemma_heights_in_range(front, from, i);
    }
}

/// Where heights never run backwards, a later call is not made below an
/// earlier one.
pub(crate) proof fn lemma_heights_in_order(calls: Seq<Call>, from: BlockNumber, i: int, j: int)
    requires
        heights_never_decrease(calls, from),
        0 <= i < j < calls.len(),
        calls[i].height() is Some,
        calls[j].height() is Some,
    ensures
        from <= calls[i].height().unwrap() <= calls[j].height().unwrap(),
    decreases calls.len(),
{
    let front = calls.drop_last();
    if j < calls.len() - 1 {
        assert(front[i] == calls[i]);
        assert(front[j] == calls[j]);
        lemma_heights_in_order(front, from, i, j);
    } else {
        assert(front[i] == calls[i]);
        lemma_heights_in_range(front, from, i);
    }
}

/// Where heights never run backwards, every voting window has opened by
/// the latest height: a window opens at the height at which its proposal is
/// created.
pub(crate) proof fn lemma_windows_open_in_time(state: DaoView, calls: Seq<Call>, from: BlockNumber)
    requires
        windows_opened_by(state, from),
        heights_never_decrease(calls, from),
    ensures
        windows_opened_by(state.after_all(calls), latest_height(calls, from)),
    decreases calls.len(),
{
    if calls.len() > 0 {
        let front = calls.drop_last();
        lemma_windows_open_in_time(state, front, from);
        lemma_latest_height_from_start(front, from);
    }
}

} // verus!
