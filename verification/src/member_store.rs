//! The membership store: one stake record per account.

use vstd::prelude::*;
use crate::member::Member;
use crate::primitives::AccountId;
use crate::table::{
    collected, distinct_keys, has_key, lemma_collected_entry, lemma_collected_keys,
    lemma_collected_push, lemma_collected_update,
};

verus! {

/// The stake records of all members, at most one per account.
///
/// Its view is the map from each account that has a record to that record.
/// The records are kept in a list and found by going through it.
pub struct MemberStore {
    entries: Vec<(AccountId, Member)>,
}

impl View for MemberStore {
    type V = Map<AccountId, Member>;

    closed spec fn view(&self) -> Map<AccountId, Member> {
        collected(self.entries@)
    }
}

impl MemberStore {
    #[verifier::type_invariant]
    spec fn one_entry_per_account(self) -> bool {
        distinct_keys(self.entries@)
    }

    /// A store without records.
    pub fn new() -> (store: MemberStore)
        ensures
            store@ == Map::<AccountId, Member>::empty(),
    {
        MemberStore { entries: Vec::new() }
    }

    /// A store with the given records. Where an account occurs more than
    /// once, its last record counts.
    pub fn from_entries(records: Vec<(AccountId, Member)>) -> (store: MemberStore)
        ensures
            store@ == collected(records@),
    {
        let mut store = MemberStore::new();
        let mut i: usize = 0;
        while i < records.len()
            invariant
                i <= records@.len(),
                store@ == collected(records@.take(i as int)),
            decreases records@.len() - i,
        {
            let (account, member) = records[i];
            store.insert(account, member);
            proof {
                assert(records@.take(i + 1).drop_last() =~= records@.take(i as int));
            }
            i = i + 1;
        }
        proof {
            assert(records@.take(i as int) =~= records@);
        }
        store
    }

    /// The records as a list with one entry per account, for a host that
    /// writes them down.
    pub fn entries(&self) -> (records: &Vec<(AccountId, Member)>)
        ensures
            distinct_keys(records@),
            collected(records@) == self@,
    {
        proof {
            use_type_invariant(self);
        }
        &self.entries
    }

    /// The position of the entry of `account` among `entries`.
    fn find(entries: &Vec<(AccountId, Member)>, account: &AccountId) -> (found: Option<usize>)
        ensures
            match found {
                Some(i) => i < entries@.len() && entries@[i as int].0 == *account,
                None => !has_key(entries@, *account),
            },
    {
        let mut i: usize = 0;
        while i < entries.len()
            invariant
                i <= entries@.len(),
                forall|j: int| 0 <= j < i ==> (#[trigger] entries@[j]).0 != *account,
            decreases entries@.len() - i,
        {
            if entries[i].0 == *account {
                return Some(i);
            }
            i = i + 1;
        }
        None
    }

    /// The record of `account`, if it has one.
    pub fn get(&self, account: &AccountId) -> (record: Option<Member>)
        ensures
            record == if self@.contains_key(*account) {
                Some(self@[*account])
            } else {
                None::<Member>
            },
    {
        proof {
            use_type_invariant(self);
            lemma_collected_keys(self.entries@, *account);
        }
        match MemberStore::find(&self.entries, account) {
            Some(i) => {
                proof {
                    lemma_collected_entry(self.entries@, i as int);
                }
                Some(self.entries[i].1)
            },
            None => None,
        }
    }

    /// Stores `member` as the record of `account`, in place of any record
    /// the account had.
    pub fn insert(&mut self, account: AccountId, member: Member)
        ensures
            final(self)@ == old(self)@.insert(account, member),
    {
        proof {
            use_type_invariant(&*self);
        }
        // The entries leave the store while they change, so that the store
        // is in order at every step.
        let mut entries: Vec<(AccountId, Member)> = Vec::new();
        std::mem::swap(&mut entries, &mut self.entries);
        match MemberStore::find(&entries, &account) {
            Some(i) => {
                proof {
                    lemma_collected_update(entries@, i as int, member);
                }
                entries[i] = (account, member);
            },
            None => {
                proof {
                    lemma_collected_push(entries@, account, member);
                }
                entries.push((account, member));
            },
        }
        self.entries = entries;
    }
}

} // verus!
