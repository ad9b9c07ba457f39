//! Long runs of arbitrary calls, held against a plain account of what the
//! engine should have done.

use dao::{AccountId, Balance, BlockNumber, Dao, Error, LedgerError, ProposalStatus};
use std::collections::{HashMap, HashSet};

const TREASURY: AccountId = AccountId([0xEE; 32]);
const PERIOD: BlockNumber = 6;

/// A small generator of numbers that gives the same run every time.
struct Numbers(u64);

impl Numbers {
    fn next(&mut self) -> u64 {
        self.0 ^= self.0 << 13;
        self.0 ^= self.0 >> 7;
        self.0 ^= self.0 << 17;
        self.0
    }

    fn below(&mut self, bound: u64) -> u64 {
        self.next() % bound
    }
}

fn account(index: u64) -> AccountId {
    AccountId([index as u8 + 1; 32])
}

/// What the test itself keeps of a run.
struct Ledger {
    staked: HashMap<AccountId, Balance>,
    yes: HashMap<u32, Balance>,
    no: HashMap<u32, Balance>,
    counted: HashSet<(AccountId, u32)>,
    executed: HashSet<u32>,
    ends: HashMap<u32, BlockNumber>,
}

fn run(seed: u64, calls: usize) {
    let mut numbers = Numbers(seed);
    let mut dao = Dao::new(TREASURY, 1, PERIOD, 10, Ok(())).unwrap().0;
    let mut ledger = Ledger {
        staked: HashMap::new(),
        yes: HashMap::new(),
        no: HashMap::new(),
        counted: HashSet::new(),
        executed: HashSet::new(),
        ends: HashMap::new(),
    };
    let mut height: BlockNumber = 1;
    let mut created: u32 = 0;

    for _ in 0..calls {
        height += numbers.below(3) as BlockNumber;
        let who = account(numbers.below(5));
        match numbers.below(4) {
            0 => {
                let amount = numbers.below(1_000) as Balance;
                if numbers.below(4) == 0 {
                    let refused = dao.join(who, amount, Err(LedgerError::InsufficientBalance));
                    assert_eq!(refused, Err(Error::Ledger(LedgerError::InsufficientBalance)));
                } else {
                    assert!(dao.join(who, amount, Ok(())).is_ok());
                    *ledger.staked.entry(who).or_insert(0) += amount;
                }
            },
            1 => {
                let length = numbers.below(300) as usize;
                let asked = dao.create_proposal(who, height, account(9), 50, vec![7u8; length]);
                if length < 255 {
                    assert!(asked.is_ok());
                    ledger.ends.insert(created, height + PERIOD);
                    created += 1;
                } else {
                    assert_eq!(asked, Err(Error::ExceedsMaxDescriptionLength));
                }
            },
            2 => {
                let id = numbers.below(created as u64 + 2) as u32;
                let approve = numbers.below(2) == 0;
                let outcome = dao.vote(who, height, id, approve);
                match ledger.ends.get(&id) {
                    None => assert_eq!(outcome, Err(Error::ProposalNotFound)),
                    Some(end) if height > *end => {
                        assert_eq!(outcome, Err(Error::VotingPeriodEnded))
                    },
                    Some(_) => match &outcome {
                        Ok(_) => {
                            // No vote of a member counts twice on a proposal.
                            assert!(ledger.counted.insert((who, id)));
                            let power = ledger.staked[&who];
                            let side = if approve { &mut ledger.yes } else { &mut ledger.no };
                            *side.entry(id).or_insert(0) += power;
                        },
                        Err(error) => assert!(
                            *error == Error::AlreadyVoted || *error == Error::MemberNotFound
                        ),
                    },
                }
                if outcome == Err(Error::MemberNotFound) {
                    assert!(!ledger.staked.contains_key(&who));
                }
            },
            _ => {
                let id = numbers.below(created as u64 + 2) as u32;
                let balance = Some(numbers.below(100) as Balance);
                let transfer =
                    if numbers.below(3) == 0 { Err(LedgerError::CallRuntimeFailed) } else { Ok(()) };
                let went_through = transfer.is_ok();
                let outcome = dao.execute_proposal(id, height, balance, transfer);
                let yes = ledger.yes.get(&id).copied().unwrap_or(0);
                let no = ledger.no.get(&id).copied().unwrap_or(0);
                let expected = match ledger.ends.get(&id) {
                    None => Some(Error::ProposalNotFound),
                    Some(end) if height <= *end => Some(Error::VotingPeriodNotEnded),
                    Some(_) if ledger.executed.contains(&id) => Some(Error::ProposalExecuted),
                    Some(_) if yes <= no => Some(Error::ProposalRejected),
                    Some(_) if balance.unwrap() <= 50 => Some(Error::InsufficientTreasuryFunds),
                    Some(_) if !went_through => Some(Error::Ledger(LedgerError::CallRuntimeFailed)),
                    Some(_) => None,
                };
                assert_eq!(outcome.as_ref().err(), expected.as_ref());
                if outcome.is_ok() {
                    // No proposal is executed twice.
                    assert!(ledger.executed.insert(id));
                }
            },
        }
    }

    // At the end the engine holds what the run has added up.
    assert_eq!(dao.proposals_created(), created);
    for index in 0..5 {
        let who = account(index);
        let staked = ledger.staked.get(&who).copied().unwrap_or(0);
        assert_eq!(dao.get_member(who).voting_power, staked);
        assert!(dao.get_member(who).last_vote <= height);
    }
    for id in 0..created {
        let proposal = dao.get_proposal(id).unwrap();
        assert_eq!(proposal.id, id);
        assert_eq!(proposal.tally.yes, ledger.yes.get(&id).copied().unwrap_or(0));
        assert_eq!(proposal.tally.no, ledger.no.get(&id).copied().unwrap_or(0));
        assert_eq!(proposal.voting_window.unwrap().end, ledger.ends[&id]);
        assert_eq!(proposal.status == ProposalStatus::Executed, ledger.executed.contains(&id));
        if proposal.status == ProposalStatus::Approved {
            assert!(proposal.tally.yes > proposal.tally.no);
        }
        if proposal.status == ProposalStatus::Rejected {
            assert!(proposal.tally.yes <= proposal.tally.no);
        }
    }
    assert!(dao.get_proposal(created).is_none());
}

#[test]
fn long_run_adds_up() {
    run(0x9E37_79B9_7F4A_7C15, 4_000);
}

#[test]
fn many_short_runs_add_up() {
    for seed in 1..200u64 {
        run(seed.wrapping_mul(0x2545_F491_4F6C_DD1D) | 1, 120);
    }
}
