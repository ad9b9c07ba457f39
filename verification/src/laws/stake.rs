//! Voting power is stake: what an account has put in, and nothing else.

use vstd::prelude::*;
use crate::error::LedgerError;
use crate::model::{Call, DaoView};
use crate::primitives::{capped, AccountId, Balance, BlockNumber, TokenId};

verus! {

/// What `call` adds to the stake of `account`: the amount, if the call is a
/// join by that account whose transfer the ledger let through.
pub open spec fn stake_in(call: Call, account: AccountId) -> nat {
    match call {
        Call::Join { caller, amount, transfer } => if caller == account && transfer is Ok {
            amount as nat
        } else {
            0
        },
        _ => 0,
    }
}

/// Everything that `account` staked in `calls`.
pub open spec fn staked_by(calls: Seq<Call>, account: AccountId) -> nat
    decreases calls.len(),
{
    if calls.len() == 0 {
        0
    } else {
        staked_by(calls.drop_last(), account) + stake_in(calls.last(), account)
    }
}

/// The sum of `amounts`.
pub open spec fn sum(amounts: Seq<Balance>) -> nat
    decreases amounts.len(),
{
    if amounts.len() == 0 {
        0
    } else {
        sum(amounts.drop_last()) + amounts.last() as nat
    }
}

/// One join by `caller` for each of `amounts`, in turn, each let through by
/// the ledger.
pub open spec fn joins(caller: AccountId, amounts: Seq<Balance>) -> Seq<Call> {
    Seq::new(
        amounts.len(),
        |i: int| Call::Join { caller, amount: amounts[i], transfer: Ok::<(), LedgerError>(()) },
    )
}

/// After one call the voting power of `account` is what it was plus what
/// the call staked for it, stopped at `Balance::MAX`.
proof fn lemma_power_after_call(state: DaoView, call: Call, account: AccountId)
    ensures
        state.after(call).member(account).voting_power == capped(
            state.member(account).voting_power + stake_in(call, account),
        ),
{
}

/// Stopping at `Balance::MAX` after every step gives the sum stopped once.
proof fn lemma_capped_twice(power: Balance, first: nat, second: nat)
    ensures
        capped(capped(power + first) + second) == capped(power + first + second),
{
}

/// The voting power of an account is everything it has staked: after any
/// calls, it is what it was before plus the amounts of the account's joins
/// that the ledger let through, stopped at `Balance::MAX`. Votes, proposals,
/// executions and the joins of others do not touch it.
pub proof fn voting_power_is_the_capped_stake(state: DaoView, calls: Seq<Call>, account: AccountId)
    ensures
        state.after_all(calls).member(account).voting_power == capped(
            state.member(account).voting_power + staked_by(calls, account),
        ),
    decreases calls.len(),
{
    if calls.len() > 0 {
        let before = state.after_all(calls.drop_last());
        voting_power_is_the_capped_stake(state, calls.drop_last(), account);
        lemma_power_after_call(before, calls.last(), account);
        lemma_capped_twice(
            state.member(account).voting_power,
            staked_by(calls.drop_last(), account),
            stake_in(calls.last(), account),
        );
    }
}

/// In an engine that started new, the voting power of an account is the
/// sum of everything it has staked, stopped at `Balance::MAX`.
pub proof fn voting_power_of_a_new_engine(
    treasury: AccountId,
    token_id: TokenId,
    voting_period: BlockNumber,
    min_balance: Balance,
    calls: Seq<Call>,
    account: AccountId,
)
    ensures
        DaoView::instantiated(treasury, token_id, voting_period, min_balance).after_all(
            calls,
        ).member(account).voting_power == capped(staked_by(calls, account) as int),
{
    voting_power_is_the_capped_stake(
        DaoView::instantiated(treasury, token_id, voting_period, min_balance),
        calls,
        account,
    );
}

/// No call ever lowers the voting power of an account.
pub proof fn voting_power_never_decreases(state: DaoView, calls: Seq<Call>, account: AccountId)
    ensures
        state.after_all(calls).member(account).voting_power >= state.member(account).voting_power,
{
    voting_power_is_the_capped_stake(state, calls, account);
}

/// What the joins of one account stake is the sum of their amounts.
proof fn lemma_joins_stake_the_sum(caller: AccountId, amounts: Seq<Balance>)
    ensures
        staked_by(joins(caller, amounts), caller) == sum(amounts),
    decreases amounts.len(),
{
    if amounts.len() > 0 {
        lemma_joins_stake_the_sum(caller, amounts.drop_last());
        assert(joins(caller, amounts).drop_last() =~= joins(caller, amounts.drop_last()));
    }
}

/// However an account spreads its stake over joins, its voting power ends
/// as what it was plus the sum of the amounts, stopped at `Balance::MAX`:
/// it never wraps around and never falls.
pub proof fn joins_add_up(state: DaoView, caller: AccountId, amounts: Seq<Balance>)
    ensures
        state.after_all(joins(caller, amounts)).member(caller).voting_power == capped(
            state.member(caller).voting_power + sum(amounts),
        ),
        state.after_all(joins(caller, amounts)).member(caller).voting_power >= state.member(
            caller,
        ).voting_power,
{
    voting_power_is_the_capped_stake(state, joins(caller, amounts), caller);
    lemma_joins_stake_the_sum(caller, amounts);
}

} // verus!
