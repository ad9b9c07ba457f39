//! The two stores, and an engine put together from stores.

use dao::{
    AccountId, Dao, Error, Member, MemberStore, Payout, Proposal, ProposalStatus, ProposalStore,
    Tally,
};

const ALICE: AccountId = AccountId([1u8; 32]);
const BOB: AccountId = AccountId([2u8; 32]);
const CHARLIE: AccountId = AccountId([3u8; 32]);
const CONTRACT: AccountId = AccountId([9u8; 32]);

fn proposal(id: u32, text: &str) -> Proposal {
    Proposal::open(id, text.as_bytes().to_vec(), Payout { beneficiary: BOB, amount: 10 }, 1, 10)
        .unwrap()
}

#[test]
fn member_store_keeps_one_record_per_account() {
    let mut store = MemberStore::new();
    assert_eq!(store.get(&ALICE), None);
    assert!(store.entries().is_empty());

    store.insert(ALICE, Member { voting_power: 1, last_vote: 0 });
    store.insert(BOB, Member { voting_power: 2, last_vote: 0 });
    store.insert(ALICE, Member { voting_power: 3, last_vote: 4 });
    assert_eq!(store.get(&ALICE), Some(Member { voting_power: 3, last_vote: 4 }));
    assert_eq!(store.get(&BOB), Some(Member { voting_power: 2, last_vote: 0 }));
    assert_eq!(store.get(&CHARLIE), None);
    assert_eq!(store.entries().len(), 2);
}

#[test]
fn member_store_from_entries_lets_the_last_record_count() {
    let store = MemberStore::from_entries(vec![
        (ALICE, Member { voting_power: 1, last_vote: 0 }),
        (BOB, Member { voting_power: 2, last_vote: 0 }),
        (ALICE, Member { voting_power: 5, last_vote: 6 }),
    ]);
    assert_eq!(store.get(&ALICE), Some(Member { voting_power: 5, last_vote: 6 }));
    assert_eq!(store.get(&BOB), Some(Member { voting_power: 2, last_vote: 0 }));
    assert_eq!(store.entries().len(), 2);

    let again = MemberStore::from_entries(store.entries().clone());
    assert_eq!(again.get(&ALICE), store.get(&ALICE));
    assert_eq!(again.get(&BOB), store.get(&BOB));
    assert_eq!(again.get(&CHARLIE), None);
    assert_eq!(MemberStore::from_entries(Vec::new()).get(&ALICE), None);
}

#[test]
fn proposal_store_keeps_one_proposal_per_identifier() {
    let mut store = ProposalStore::new();
    assert!(store.get(0).is_none());
    store.insert(proposal(0, "first"));
    store.insert(proposal(5, "second"));
    store.insert(proposal(0, "third"));
    assert_eq!(store.get(0), Some(&proposal(0, "third")));
    assert_eq!(store.get(5), Some(&proposal(5, "second")));
    assert!(store.get(1).is_none());
    assert_eq!(store.entries().len(), 2);
}

#[test]
fn proposal_store_from_entries_lets_the_last_proposal_count() {
    let store = ProposalStore::from_entries(vec![
        proposal(3, "a"),
        proposal(4, "b"),
        proposal(3, "c"),
    ]);
    assert_eq!(store.get(3), Some(&proposal(3, "c")));
    assert_eq!(store.get(4), Some(&proposal(4, "b")));
    assert_eq!(store.entries().len(), 2);
    assert!(ProposalStore::from_entries(Vec::new()).get(0).is_none());
}

#[test]
fn engine_comes_back_from_its_parts() {
    let (mut dao, _) = Dao::new(CONTRACT, 1, 10, 10_000, Ok(())).unwrap();
    dao.join(ALICE, 20, Ok(())).unwrap();
    dao.join(BOB, 10, Ok(())).unwrap();
    dao.create_proposal(ALICE, 1, BOB, 5, b"desc".to_vec()).unwrap();
    dao.vote(ALICE, 2, 0, true).unwrap();

    let mut again = Dao::from_parts(
        MemberStore::from_entries(dao.members().entries().clone()),
        ProposalStore::from_entries(dao.proposals().entries().clone()),
        dao.proposals_created(),
        dao.voting_period(),
        dao.token_id(),
        dao.min_balance(),
        dao.treasury(),
    );
    assert_eq!(again.get_member(ALICE), Member { voting_power: 20, last_vote: 2 });
    assert_eq!(again.get_member(BOB), Member { voting_power: 10, last_vote: 0 });
    assert_eq!(again.get_proposal(0), dao.get_proposal(0));
    assert_eq!(again.proposals_created(), 1);
    assert_eq!(again.voting_period(), 10);
    assert_eq!(again.token_id(), 1);
    assert_eq!(again.min_balance(), 10_000);
    assert_eq!(again.treasury(), CONTRACT);

    // The engine goes on where the other one stands.
    assert_eq!(again.vote(ALICE, 3, 0, false), Err(Error::AlreadyVoted));
    assert!(again.vote(BOB, 3, 0, false).is_ok());
    assert_eq!(again.get_proposal(0).unwrap().tally, Tally { yes: 20, no: 10 });
    assert!(again.create_proposal(BOB, 4, ALICE, 1, Vec::new()).is_ok());
    assert_eq!(again.get_proposal(1).unwrap().id, 1);
}

#[test]
fn malformed_proposal_is_refused() {
    let mut without_window = proposal(0, "without window");
    without_window.voting_window = None;
    let mut without_payout = proposal(1, "without payout");
    without_payout.payout = None;
    without_payout.tally = Tally { yes: 1, no: 0 };
    let mut members = MemberStore::new();
    members.insert(ALICE, Member { voting_power: 5, last_vote: 0 });
    let mut dao = Dao::from_parts(
        members,
        ProposalStore::from_entries(vec![without_window, without_payout]),
        2,
        10,
        1,
        10_000,
        CONTRACT,
    );

    assert_eq!(dao.vote(ALICE, 1, 0, true), Err(Error::MalformedProposal));
    assert_eq!(dao.vote(BOB, 1, 0, true), Err(Error::MalformedProposal));
    assert_eq!(dao.authorize_execution(0, 100, Some(1000)), Err(Error::MalformedProposal));
    assert_eq!(dao.execute_proposal(0, 100, Some(1000), Ok(())), Err(Error::MalformedProposal));
    // A proposal without a payout can be voted on, and never executed.
    assert!(dao.vote(ALICE, 1, 1, true).is_ok());
    assert_eq!(dao.execute_proposal(1, 100, Some(1000), Ok(())), Err(Error::MalformedProposal));
    assert_eq!(dao.get_proposal(1).unwrap().status, ProposalStatus::Submitted);
}

#[test]
fn identifiers_stop_at_the_largest() {
    let mut dao = Dao::from_parts(
        MemberStore::new(),
        ProposalStore::new(),
        u32::MAX - 1,
        10,
        1,
        10_000,
        CONTRACT,
    );
    dao.create_proposal(ALICE, 1, BOB, 5, b"one".to_vec()).unwrap();
    assert_eq!(dao.proposals_created(), u32::MAX);
    dao.create_proposal(ALICE, 2, BOB, 5, b"two".to_vec()).unwrap();
    assert_eq!(dao.proposals_created(), u32::MAX);
    assert_eq!(dao.get_proposal(u32::MAX - 1).unwrap().description, b"one".to_vec());
    assert_eq!(dao.get_proposal(u32::MAX).unwrap().description, b"two".to_vec());
    // Once the identifiers have run out, a new proposal takes the place of
    // the one under the last identifier.
    dao.create_proposal(ALICE, 3, BOB, 5, b"three".to_vec()).unwrap();
    assert_eq!(dao.proposals_created(), u32::MAX);
    assert_eq!(dao.get_proposal(u32::MAX).unwrap().description, b"three".to_vec());
    assert_eq!(dao.get_proposal(u32::MAX - 1).unwrap().description, b"one".to_vec());
    assert_eq!(dao.proposals().entries().len(), 2);
}
