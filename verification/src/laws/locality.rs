//! A call touches only the records it names, so a host that keeps the
//! records in keyed storage needs to hand the engine no others.

use vstd::prelude::*;
use crate::model::{Call, DaoView};
use crate::primitives::AccountId;

verus! {

/// The accounts whose stake record `call` reads or writes: the caller of a
/// join or a vote.
pub open spec fn members_named(call: Call) -> Set<AccountId> {
    match call {
        Call::Join { caller, .. } => set![caller],
        Call::Vote { caller, .. } => set![caller],
        _ => Set::empty(),
    }
}

/// The identifiers of the proposals that `call` reads or writes in `state`:
/// the one voted on or executed, and the next identifier for a creation.
pub open spec fn proposals_named(state: DaoView, call: Call) -> Set<u32> {
    match call {
        Call::Join { .. } => Set::empty(),
        Call::CreateProposal { .. } => set![state.proposals_created],
        Call::Vote { proposal_id, .. } => set![proposal_id],
        Call::ExecuteProposal { proposal_id, .. } => set![proposal_id],
    }
}

/// `state` with no records but those that `call` names.
pub open spec fn narrowed(state: DaoView, call: Call) -> DaoView {
    DaoView {
        members: state.members.restrict(members_named(call)),
        proposals: state.proposals.restrict(proposals_named(state, call)),
        ..state
    }
}

/// `state` with the records and the next identifier of `part` written over
/// its own.
pub open spec fn written_back(state: DaoView, part: DaoView) -> DaoView {
    DaoView {
        members: state.members.union_prefer_right(part.members),
        proposals: state.proposals.union_prefer_right(part.proposals),
        proposals_created: part.proposals_created,
        ..state
    }
}

/// The records that a call names are all it needs. Made on the state
/// narrowed to those records, the call is refused or goes through as on the
/// whole state, and writing what the narrow state then holds over the whole
/// state gives the state after the call. Every other record stays as it was.
pub proof fn named_records_suffice(state: DaoView, call: Call)
    ensures
        narrowed(state, call).refusal(call) == state.refusal(call),
        written_back(state, narrowed(state, call).after(call)) == state.after(call),
        forall|account: AccountId|
            !members_named(call).contains(account) ==> state.after(call).voter(account)
                == #[trigger] state.voter(account),
        forall|id: u32|
            !proposals_named(state, call).contains(id) ==> state.after(call).proposal(id)
                == #[trigger] state.proposal(id),
{
    let part = narrowed(state, call);
    let merged = written_back(state, part.after(call));
    assert(merged.members =~= state.after(call).members);
    assert(merged.proposals =~= state.after(call).proposals);
}

} // verus!
