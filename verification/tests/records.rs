//! The records on their own: members, windows, tallies and proposals.

use dao::proposal::DESCRIPTION_LIMIT;
use dao::{
    AccountId, Balance, BlockNumber, Error, LedgerError, Member, Payout, Proposal,
    ProposalStatus, Tally, VotingWindow,
};

const BOB: AccountId = AccountId([2u8; 32]);

fn payout() -> Payout {
    Payout { beneficiary: BOB, amount: 500 }
}

fn open_proposal() -> Proposal {
    Proposal::open(7, b"desc".to_vec(), payout(), 100, 10).unwrap()
}

fn voter(power: Balance) -> Option<Member> {
    Some(Member { voting_power: power, last_vote: 0 })
}

#[test]
fn account_ids_compare_by_their_bytes() {
    let mut bytes = [7u8; 32];
    assert_eq!(AccountId::new(bytes), AccountId([7u8; 32]));
    assert_eq!(AccountId::new(bytes).as_bytes(), &[7u8; 32]);
    bytes[0] = 8;
    assert_ne!(AccountId::new(bytes), AccountId([7u8; 32]));
    bytes[0] = 7;
    bytes[31] = 0;
    assert_ne!(AccountId::new(bytes), AccountId([7u8; 32]));
    bytes[31] = 7;
    bytes[16] = 200;
    assert!(AccountId::new(bytes) != AccountId([7u8; 32]));
    bytes[16] = 7;
    assert!(AccountId::new(bytes) == AccountId([7u8; 32]));
}

#[test]
fn new_member_has_nothing() {
    assert_eq!(Member::new(), Member { voting_power: 0, last_vote: 0 });
    assert_eq!(Member::default(), Member::new());
}

#[test]
fn stake_adds_and_stops_at_the_largest_balance() {
    let member = Member { voting_power: 100, last_vote: 9 };
    assert_eq!(member.stake(23), Member { voting_power: 123, last_vote: 9 });
    assert_eq!(member.stake(0), member);
    assert_eq!(member.stake(Balance::MAX - 100).voting_power, Balance::MAX);
    assert_eq!(member.stake(Balance::MAX - 101).voting_power, Balance::MAX - 1);
    assert_eq!(member.stake(Balance::MAX), Member { voting_power: Balance::MAX, last_vote: 9 });
}

#[test]
fn vote_marker_counts_from_the_start_of_a_window() {
    let member = Member { voting_power: 1, last_vote: 50 };
    assert!(member.has_voted_since(49));
    assert!(member.has_voted_since(50));
    assert!(!member.has_voted_since(51));
    assert!(Member::new().has_voted_since(0));
    assert_eq!(member.record_vote(77), Member { voting_power: 1, last_vote: 77 });
}

#[test]
fn window_runs_from_start_to_start_plus_period() {
    assert_eq!(VotingWindow::open_at(100, 10), VotingWindow { start: 100, end: 110 });
    assert_eq!(VotingWindow::open_at(0, 0), VotingWindow { start: 0, end: 0 });
    assert_eq!(
        VotingWindow::open_at(BlockNumber::MAX - 3, 4),
        VotingWindow { start: BlockNumber::MAX - 3, end: BlockNumber::MAX }
    );
    assert_eq!(
        VotingWindow::open_at(BlockNumber::MAX - 3, 3),
        VotingWindow { start: BlockNumber::MAX - 3, end: BlockNumber::MAX }
    );
    assert_eq!(VotingWindow::open_at(5, BlockNumber::MAX).end, BlockNumber::MAX);
}

#[test]
fn window_closes_after_its_end() {
    let window = VotingWindow { start: 100, end: 110 };
    assert!(!window.has_closed(0));
    assert!(!window.has_closed(100));
    assert!(!window.has_closed(110));
    assert!(window.has_closed(111));
    // A window that ends at the largest height never closes.
    assert!(!VotingWindow { start: 0, end: BlockNumber::MAX }.has_closed(BlockNumber::MAX));
}

#[test]
fn tally_counts_each_side_and_stops_at_the_largest_balance() {
    let tally = Tally::new();
    assert_eq!(tally, Tally { yes: 0, no: 0 });
    let tally = tally.count(true, 5).count(false, 3).count(true, 2);
    assert_eq!(tally, Tally { yes: 7, no: 3 });
    assert_eq!(tally.count(true, Balance::MAX), Tally { yes: Balance::MAX, no: 3 });
    assert_eq!(tally.count(false, Balance::MAX - 3), Tally { yes: 7, no: Balance::MAX });
    assert_eq!(tally.count(false, Balance::MAX - 4), Tally { yes: 7, no: Balance::MAX - 1 });
}

#[test]
fn tally_approves_only_with_more_in_favour() {
    assert!(Tally { yes: 1, no: 0 }.is_approving());
    assert!(!Tally { yes: 0, no: 0 }.is_approving());
    assert!(!Tally { yes: 5, no: 5 }.is_approving());
    assert!(!Tally { yes: 5, no: 6 }.is_approving());
    assert!(!Tally { yes: Balance::MAX, no: Balance::MAX }.is_approving());
}

#[test]
fn open_sets_every_field() {
    let proposal = open_proposal();
    assert_eq!(
        proposal,
        Proposal {
            id: 7,
            description: b"desc".to_vec(),
            status: ProposalStatus::Submitted,
            voting_window: Some(VotingWindow { start: 100, end: 110 }),
            tally: Tally { yes: 0, no: 0 },
            payout: Some(Payout { beneficiary: BOB, amount: 500 }),
        }
    );
    assert_eq!(proposal.clone(), proposal);
}

#[test]
fn open_refuses_a_long_description() {
    assert_eq!(DESCRIPTION_LIMIT, 255);
    assert!(Proposal::open(0, vec![0u8; 254], payout(), 1, 1).is_ok());
    assert_eq!(
        Proposal::open(0, vec![0u8; 255], payout(), 1, 1),
        Err(Error::ExceedsMaxDescriptionLength)
    );
    assert_eq!(
        Proposal::open(0, vec![0u8; 256], payout(), 1, 1),
        Err(Error::ExceedsMaxDescriptionLength)
    );
}

#[test]
fn finalize_waits_for_the_window_to_close() {
    let mut proposal = open_proposal();
    proposal.tally = Tally { yes: 3, no: 1 };
    assert!(!proposal.finalize_if_expired(100));
    assert!(!proposal.finalize_if_expired(110));
    assert_eq!(proposal.status, ProposalStatus::Submitted);
    assert!(proposal.finalize_if_expired(111));
    assert_eq!(proposal.status, ProposalStatus::Approved);
    // Nothing is left to do the second time.
    assert!(!proposal.finalize_if_expired(112));
    assert_eq!(proposal.status, ProposalStatus::Approved);
}

#[test]
fn finalize_rejects_without_more_in_favour() {
    let mut tie = open_proposal();
    tie.tally = Tally { yes: 4, no: 4 };
    assert!(tie.finalize_if_expired(200));
    assert_eq!(tie.status, ProposalStatus::Rejected);

    let mut against = open_proposal();
    against.tally = Tally { yes: 4, no: 5 };
    assert!(against.finalize_if_expired(200));
    assert_eq!(against.status, ProposalStatus::Rejected);
    assert_eq!(against.tally, Tally { yes: 4, no: 5 });
}

#[test]
fn finalize_leaves_a_final_status() {
    for status in [ProposalStatus::Approved, ProposalStatus::Rejected, ProposalStatus::Executed] {
        let mut proposal = open_proposal();
        proposal.tally = Tally { yes: 9, no: 1 };
        proposal.status = status;
        assert!(!proposal.finalize_if_expired(200));
        assert_eq!(proposal.status, status);
    }
}

#[test]
fn finalize_ignores_a_proposal_without_window() {
    let mut proposal = open_proposal();
    proposal.voting_window = None;
    assert!(!proposal.finalize_if_expired(BlockNumber::MAX));
    assert_eq!(proposal.status, ProposalStatus::Submitted);
}

#[test]
fn cast_vote_counts_the_power_of_the_voter() {
    let mut proposal = open_proposal();
    assert_eq!(
        proposal.cast_vote(voter(40), 105, true),
        Ok(Member { voting_power: 40, last_vote: 105 })
    );
    assert_eq!(proposal.tally, Tally { yes: 40, no: 0 });
    assert_eq!(
        proposal.cast_vote(Some(Member { voting_power: 15, last_vote: 99 }), 110, false),
        Ok(Member { voting_power: 15, last_vote: 110 })
    );
    assert_eq!(proposal.tally, Tally { yes: 40, no: 15 });
    assert_eq!(proposal.status, ProposalStatus::Submitted);
}

#[test]
fn cast_vote_checks_in_order() {
    // Without a window nothing else is looked at.
    let mut malformed = open_proposal();
    malformed.voting_window = None;
    assert_eq!(malformed.cast_vote(None, 500, true), Err(Error::MalformedProposal));
    assert_eq!(malformed.cast_vote(voter(1), 0, true), Err(Error::MalformedProposal));
    assert_eq!(malformed.status, ProposalStatus::Submitted);

    // A closed window comes before the question of membership.
    let mut closed = open_proposal();
    assert_eq!(closed.cast_vote(None, 111, true), Err(Error::VotingPeriodEnded));
    assert_eq!(closed.status, ProposalStatus::Rejected);

    // Membership comes before the vote marker.
    let mut open = open_proposal();
    assert_eq!(open.cast_vote(None, 105, true), Err(Error::MemberNotFound));
    assert_eq!(
        open.cast_vote(Some(Member { voting_power: 5, last_vote: 100 }), 105, true),
        Err(Error::AlreadyVoted)
    );
    assert_eq!(
        open.cast_vote(Some(Member { voting_power: 5, last_vote: 4000 }), 105, true),
        Err(Error::AlreadyVoted)
    );
    assert_eq!(open, open_proposal());
}

#[test]
fn payout_due_checks_in_order() {
    let mut proposal = open_proposal();
    proposal.tally = Tally { yes: 2, no: 1 };

    let mut without_payout = proposal.clone();
    without_payout.payout = None;
    assert_eq!(without_payout.payout_due(0, None), Err(Error::MalformedProposal));
    let mut without_window = proposal.clone();
    without_window.voting_window = None;
    assert_eq!(without_window.payout_due(200, Some(1000)), Err(Error::MalformedProposal));

    assert_eq!(proposal.payout_due(110, Some(1000)), Err(Error::VotingPeriodNotEnded));

    let mut executed = proposal.clone();
    executed.status = ProposalStatus::Executed;
    executed.tally = Tally { yes: 0, no: 1 };
    assert_eq!(executed.payout_due(111, None), Err(Error::ProposalExecuted));

    let mut tie = proposal.clone();
    tie.tally = Tally { yes: 1, no: 1 };
    assert_eq!(tie.payout_due(111, None), Err(Error::ProposalRejected));

    assert_eq!(proposal.payout_due(111, None), Err(Error::InsufficientTreasuryFunds));
    assert_eq!(proposal.payout_due(111, Some(500)), Err(Error::InsufficientTreasuryFunds));
    assert_eq!(proposal.payout_due(111, Some(501)), Ok(payout()));

    // The status that a late vote has given does not stand in the way.
    for status in [ProposalStatus::Approved, ProposalStatus::Rejected] {
        let mut finalized = proposal.clone();
        finalized.status = status;
        assert_eq!(finalized.payout_due(111, Some(501)), Ok(payout()));
    }
}

#[test]
fn payout_of_nothing_needs_something_in_the_treasury() {
    let mut proposal =
        Proposal::open(0, Vec::new(), Payout { beneficiary: BOB, amount: 0 }, 0, 0).unwrap();
    proposal.tally = Tally { yes: 1, no: 0 };
    assert_eq!(proposal.payout_due(1, Some(0)), Err(Error::InsufficientTreasuryFunds));
    assert_eq!(proposal.payout_due(1, Some(1)), Ok(Payout { beneficiary: BOB, amount: 0 }));
}

#[test]
fn payout_of_everything_is_never_due() {
    let mut proposal =
        Proposal::open(0, Vec::new(), Payout { beneficiary: BOB, amount: Balance::MAX }, 0, 0)
            .unwrap();
    proposal.tally = Tally { yes: 1, no: 0 };
    assert_eq!(proposal.payout_due(1, Some(Balance::MAX)), Err(Error::InsufficientTreasuryFunds));
}

#[test]
fn settle_marks_the_proposal_only_after_the_transfer() {
    let mut proposal = open_proposal();
    proposal.tally = Tally { yes: 2, no: 1 };

    assert_eq!(
        proposal.settle(111, Some(501), Err(LedgerError::ZeroRecipientAddress)),
        Err(Error::Ledger(LedgerError::ZeroRecipientAddress))
    );
    assert_eq!(proposal.status, ProposalStatus::Submitted);
    assert_eq!(
        proposal.settle(111, Some(501), Err(LedgerError::ZeroSenderAddress)),
        Err(Error::Ledger(LedgerError::ZeroSenderAddress))
    );
    assert_eq!(proposal.settle(111, Some(500), Ok(())), Err(Error::InsufficientTreasuryFunds));
    assert_eq!(proposal.settle(110, Some(501), Ok(())), Err(Error::VotingPeriodNotEnded));
    assert_eq!(proposal.status, ProposalStatus::Submitted);

    assert_eq!(proposal.settle(111, Some(501), Ok(())), Ok(payout()));
    assert_eq!(proposal.status, ProposalStatus::Executed);
    assert_eq!(proposal.tally, Tally { yes: 2, no: 1 });
    assert_eq!(proposal.settle(111, Some(501), Ok(())), Err(Error::ProposalExecuted));
}

#[test]
fn ledger_errors_are_wrapped_unchanged() {
    assert_eq!(
        Error::from(LedgerError::Custom("no".to_string())),
        Error::Ledger(LedgerError::Custom("no".to_string()))
    );
    assert_eq!(
        Error::from(LedgerError::InsufficientBalance),
        Error::Ledger(LedgerError::InsufficientBalance)
    );
    assert_ne!(
        Error::from(LedgerError::InsufficientBalance),
        Error::Ledger(LedgerError::InsufficientAllowance)
    );
}
