//! The proposal store: every proposal under its identifier.

use vstd::prelude::*;
use crate::proposal::{Proposal, ProposalView};
use crate::table::{
    collected, distinct_keys, has_key, lemma_collected_entry, lemma_collected_keys,
    lemma_collected_push, lemma_collected_update,
};

verus! {

/// The proposals as entries of a table: each under its own identifier.
pub open spec fn by_id(proposals: Seq<Proposal>) -> Seq<(u32, ProposalView)> {
    proposals.map_values(|proposal: Proposal| (proposal.id, proposal@))
}

/// A table of proposals gives for each identifier a proposal that carries it.
pub proof fn lemma_stored_under_own_id(proposals: Seq<Proposal>, id: u32)
    ensures
        collected(by_id(proposals)).contains_key(id) ==> collected(by_id(proposals))[id].id == id,
    decreases proposals.len(),
{
    if proposals.len() > 0 {
        assert(by_id(proposals).drop_last() =~= by_id(proposals.drop_last()));
        lemma_stored_under_own_id(proposals.drop_last(), id);
    }
}

/// All proposals, at most one per identifier.
///
/// Its view is the map from each identifier in use to its proposal. The
/// proposals are kept in a list and found by going through it.
pub struct ProposalStore {
    entries: Vec<Proposal>,
}

impl View for ProposalStore {
    type V = Map<u32, ProposalView>;

    closed spec fn view(&self) -> Map<u32, ProposalView> {
        collected(by_id(self.entries@))
    }
}

impl ProposalStore {
    #[verifier::type_invariant]
    spec fn one_entry_per_identifier(self) -> bool {
        distinct_keys(by_id(self.entries@))
    }

    /// A store without proposals.
    pub fn new() -> (store: ProposalStore)
        ensures
            store@ == Map::<u32, ProposalView>::empty(),
    {
        ProposalStore { entries: Vec::new() }
    }

    /// A store with the given proposals. Where an identifier occurs more
    /// than once, its last proposal counts.
    pub fn from_entries(proposals: Vec<Proposal>) -> (store: ProposalStore)
        ensures
            store@ == collected(by_id(proposals@)),
    {
        let mut store = ProposalStore::new();
        let ghost all = proposals@;
        for proposal in list: proposals
            invariant
                list.seq() == all,
                store@ == collected(by_id(all.take(list.index() as int))),
        {
            proof {
                assert(by_id(all.take(list.index() + 1)).drop_last() =~= by_id(
                    all.take(list.index() as int),
                ));
            }
            store.insert(proposal);
        }
        proof {
            assert(all.take(all.len() as int) =~= all);
        }
        store
    }

    /// The proposals as a list with one entry per identifier, for a host
    /// that writes them down.
    pub fn entries(&self) -> (proposals: &Vec<Proposal>)
        ensures
            distinct_keys(by_id(proposals@)),
            collected(by_id(proposals@)) == self@,
    {
        proof {
            use_type_invariant(self);
        }
        &self.entries
    }

    /// The position of the proposal `id` among `entries`.
    fn find(entries: &Vec<Proposal>, id: u32) -> (found: Option<usize>)
        ensures
            match found {
                Some(i) => i < entries@.len() && entries@[i as int].id == id,
                None => !has_key(by_id(entries@), id),
            },
    {
        let mut i: usize = 0;
        while i < entries.len()
            invariant
                i <= entries@.len(),
                forall|j: int| 0 <= j < i ==> (#[trigger] by_id(entries@)[j]).0 != id,
            decreases entries@.len() - i,
        {
            if entries[i].id == id {
                return Some(i);
            }
            assert(by_id(entries@)[i as int].0 == entries@[i as int].id);
            i = i + 1;
        }
        None
    }

    /// The proposal stored under `id`, if there is one.
    pub fn get(&self, id: u32) -> (found: Option<&Proposal>)
        ensures
            match found {
                Some(proposal) => self@.contains_key(id) && self@[id] == proposal@ && proposal.id
                    == id,
                None => !self@.contains_key(id),
            },
    {
        proof {
            use_type_invariant(self);
            lemma_collected_keys(by_id(self.entries@), id);
        }
        match ProposalStore::find(&self.entries, id) {
            Some(i) => {
                proof {
                    lemma_collected_entry(by_id(self.entries@), i as int);
                }
                Some(&self.entries[i])
            },
            None => None,
        }
    }

    /// Stores `proposal` under its identifier, in place of any proposal
    /// stored under it.
    pub fn insert(&mut self, proposal: Proposal)
        ensures
            final(self)@ == old(self)@.insert(proposal.id, proposal@),
    {
        proof {
            use_type_invariant(&*self);
        }
        // The entries leave the store while they change, so that the store
        // is in order at every step.
        let mut entries: Vec<Proposal> = Vec::new();
        std::mem::swap(&mut entries, &mut self.entries);
        let ghost before = entries@;
        match ProposalStore::find(&entries, proposal.id) {
            Some(i) => {
                proof {
                    lemma_collected_update(by_id(before), i as int, proposal@);
                    assert(by_id(before.update(i as int, proposal)) =~= by_id(before).update(
                        i as int,
                        (proposal.id, proposal@),
                    ));
                }
                entries[i] = proposal;
            },
            None => {
                proof {
                    lemma_collected_push(by_id(before), proposal.id, proposal@);
                    assert(by_id(before.push(proposal)) =~= by_id(before).push(
                        (proposal.id, proposal@),
                    ));
                }
                entries.push(proposal);
            },
        }
        self.entries = entries;
    }
}

} // verus!
