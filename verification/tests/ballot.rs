use squads::address::Address;
use squads::ballot::{cast_multisig_vote, cast_vote};
use squads::error::{ErrorKind, SquadError};
use squads::roster::Member;
use squads::state::proposal::Proposal;
use squads::state::squad::Squad;
use squads::state::vote::VoteReceipt;

fn addr(n: u8) -> Address {
    Address::new([n; 32])
}

fn make_squad(mode: u8, quorum: u8, support: u8, members: u8) -> Squad {
    let mut squad = Squad::blank();
    squad.is_initialized = true;
    squad.allocation_type = mode;
    squad.vote_quorum = quorum;
    squad.vote_support = support;
    for n in 1..=members {
        squad.add_member(addr(n), Member { equity_token_account: addr(100 + n) }).unwrap();
    }
    squad
}

fn make_proposal(kind: u8, options: u8, index: u32) -> Proposal {
    let mut proposal = Proposal::blank();
    proposal.is_initialized = true;
    proposal.proposal_type = kind;
    proposal.votes_num = options;
    proposal.start_timestamp = 100;
    proposal.close_timestamp = 200;
    proposal.proposal_index = index;
    proposal
}

#[test]
fn a_vote_is_tallied_and_receipted() {
    let squad = make_squad(1, 50, 50, 4);
    let mut p = make_proposal(1, 2, 1);
    let receipt = cast_vote(&squad, &mut p, false, &addr(77), &addr(1), 0, 30, 100, 150).unwrap();
    assert_eq!(p.votes, vec![30, 0, 0, 0, 0]);
    assert_eq!(p.has_voted, vec![addr(1)]);
    assert_eq!(p.has_voted_num, 1);
    assert!(!p.execute_ready);
    assert!(!p.executed);
    assert_eq!(p.supply_at_execute, 100);
    assert_eq!(p.members_at_execute, 4);
    let mut expected = VoteReceipt::blank();
    expected.is_initialized = true;
    expected.proposal_address = addr(77);
    expected.vote_cast = 0;
    expected.voter = addr(1);
    expected.cast_timestamp = 150;
    expected.weight = 30;
    assert_eq!(receipt, expected);
}

#[test]
fn a_second_vote_is_a_conflict_and_changes_nothing() {
    let squad = make_squad(1, 50, 50, 4);
    let mut p = make_proposal(1, 2, 1);
    cast_vote(&squad, &mut p, false, &addr(77), &addr(1), 0, 30, 100, 150).unwrap();
    let before = p.clone();
    let again = cast_vote(&squad, &mut p, true, &addr(77), &addr(1), 1, 30, 100, 151);
    assert_eq!(again, Err(SquadError::DuplicateVote));
    assert_eq!(SquadError::DuplicateVote.kind(), ErrorKind::StateConflict);
    assert_eq!(p, before);
    // the receipt bars the vote even where everything else would bar it too
    let stranger = cast_vote(&squad, &mut p, true, &addr(77), &addr(99), 9, 30, 100, 999);
    assert_eq!(stranger, Err(SquadError::DuplicateVote));
    assert_eq!(p, before);
    let mut q = make_proposal(2, 2, 1);
    let ms = make_squad(2, 2, 0, 3);
    cast_multisig_vote(&ms, &mut q, false, &addr(78), &addr(1), 0, 150).unwrap();
    let before = q.clone();
    assert_eq!(
        cast_multisig_vote(&ms, &mut q, true, &addr(78), &addr(1), 0, 150),
        Err(SquadError::DuplicateVote)
    );
    assert_eq!(q, before);
}

#[test]
fn votes_are_taken_within_the_window_only() {
    let squad = make_squad(1, 50, 50, 4);
    let mut p = make_proposal(1, 2, 1);
    let before = p.clone();
    assert_eq!(
        cast_vote(&squad, &mut p, false, &addr(77), &addr(1), 0, 30, 100, 99),
        Err(SquadError::VotingNotStarted)
    );
    assert_eq!(
        cast_vote(&squad, &mut p, false, &addr(77), &addr(1), 0, 30, 100, 200),
        Err(SquadError::VotingClosed)
    );
    assert_eq!(
        cast_vote(&squad, &mut p, false, &addr(77), &addr(1), 0, 30, 100, 201),
        Err(SquadError::VotingClosed)
    );
    assert_eq!(p, before);
    assert_eq!(SquadError::VotingClosed.kind(), ErrorKind::TemporalViolation);
    assert_eq!(SquadError::VotingNotStarted.kind(), ErrorKind::TemporalViolation);
    assert!(cast_vote(&squad, &mut p, false, &addr(77), &addr(1), 0, 30, 100, 100).is_ok());
    assert!(cast_vote(&squad, &mut p, false, &addr(77), &addr(2), 0, 30, 100, 199).is_ok());
}

#[test]
fn each_refusal_of_a_vote_has_its_cause() {
    let team = make_squad(1, 50, 50, 4);
    let mut p = make_proposal(1, 2, 1);
    let before = p.clone();
    assert_eq!(
        cast_multisig_vote(&team, &mut p, false, &addr(77), &addr(1), 0, 150),
        Err(SquadError::WrongMode)
    );
    assert_eq!(
        cast_vote(&make_squad(2, 2, 0, 3), &mut p, false, &addr(77), &addr(1), 0, 30, 100, 150),
        Err(SquadError::WrongMode)
    );
    assert_eq!(
        cast_vote(&team, &mut p, false, &addr(77), &addr(9), 0, 30, 100, 150),
        Err(SquadError::NotMember)
    );
    assert_eq!(
        cast_vote(&team, &mut p, false, &addr(77), &addr(1), 2, 30, 100, 150),
        Err(SquadError::OutOfRange)
    );
    let mut six = make_proposal(0, 6, 1);
    assert_eq!(
        cast_vote(&team, &mut six, false, &addr(77), &addr(1), 5, 30, 100, 150),
        Err(SquadError::OutOfRange)
    );
    assert_eq!(p, before);
    let mut done = make_proposal(1, 2, 1);
    done.executed = true;
    assert_eq!(
        cast_vote(&team, &mut done, false, &addr(77), &addr(1), 0, 30, 100, 150),
        Err(SquadError::AlreadyExecuted)
    );
    let mut heavy = make_proposal(1, 2, 1);
    cast_vote(&team, &mut heavy, false, &addr(77), &addr(1), 0, u64::MAX, u64::MAX, 150).unwrap();
    let before = heavy.clone();
    assert_eq!(
        cast_vote(&team, &mut heavy, false, &addr(77), &addr(2), 0, 1, u64::MAX, 150),
        Err(SquadError::Overflow)
    );
    assert_eq!(heavy, before);
    let mut full = make_proposal(1, 2, 1);
    for n in 0..150u8 {
        full.has_voted.push(addr(n));
    }
    full.has_voted_num = 150;
    assert_eq!(
        cast_vote(&team, &mut full, false, &addr(77), &addr(1), 0, 1, 100, 150),
        Err(SquadError::CapacityExceeded)
    );
}

#[test]
fn the_fence_bars_an_undecided_proposal() {
    let mut team = make_squad(1, 50, 50, 4);
    let mut p = make_proposal(1, 2, 3);
    team.member_lock_index = 2;
    assert!(cast_vote(&team, &mut p, false, &addr(77), &addr(1), 0, 10, 100, 150).is_ok());
    team.member_lock_index = 3;
    let before = p.clone();
    assert_eq!(
        cast_vote(&team, &mut p, false, &addr(77), &addr(2), 0, 10, 100, 150),
        Err(SquadError::Fenced)
    );
    team.member_lock_index = 9;
    assert_eq!(
        cast_vote(&team, &mut p, false, &addr(77), &addr(2), 0, 10, 100, 150),
        Err(SquadError::Fenced)
    );
    assert_eq!(p, before);
    // a proposal that was decided before is not fenced
    p.execute_ready = true;
    assert!(cast_vote(&team, &mut p, false, &addr(77), &addr(2), 0, 10, 100, 150).is_ok());
    let mut ms = make_squad(2, 2, 0, 3);
    ms.member_lock_index = 5;
    let mut q = make_proposal(2, 2, 5);
    assert_eq!(
        cast_multisig_vote(&ms, &mut q, false, &addr(78), &addr(1), 0, 150),
        Err(SquadError::Fenced)
    );
}

#[test]
fn a_team_proposal_is_approved_on_quorum_and_support() {
    // 4 members, quorum 50 percent, support 60 percent, supply 100
    let team = make_squad(1, 50, 60, 4);
    let mut p = make_proposal(1, 2, 1);
    cast_vote(&team, &mut p, false, &addr(77), &addr(1), 0, 59, 100, 150).unwrap();
    // one voter of four is under the quorum
    assert!(!p.execute_ready);
    cast_vote(&team, &mut p, false, &addr(77), &addr(2), 0, 0, 100, 150).unwrap();
    // the quorum holds, the support of 59 does not
    assert!(!p.execute_ready);
    cast_vote(&team, &mut p, false, &addr(77), &addr(3), 0, 1, 100, 150).unwrap();
    assert!(p.execute_ready);
    assert!(!p.executed);
    assert_eq!(p.votes, vec![60, 0, 0, 0, 0]);
}

#[test]
fn a_team_proposal_is_rejected_for_good_when_it_cannot_pass() {
    let team = make_squad(1, 25, 10, 4);
    let mut p = make_proposal(3, 2, 1);
    cast_vote(&team, &mut p, false, &addr(77), &addr(1), 0, 20, 100, 150).unwrap();
    assert!(p.execute_ready);
    let mut p = make_proposal(3, 2, 1);
    cast_vote(&team, &mut p, false, &addr(77), &addr(1), 1, 50, 100, 150).unwrap();
    // 50 against, 50 still to vote: not yet
    assert!(!p.executed);
    assert!(!p.execute_ready);
    cast_vote(&team, &mut p, false, &addr(77), &addr(2), 1, 1, 100, 150).unwrap();
    // 51 against exceed the 49 that are left
    assert!(p.executed);
    assert!(!p.execute_ready);
    assert_eq!(
        cast_vote(&team, &mut p, false, &addr(77), &addr(3), 0, 49, 100, 150),
        Err(SquadError::AlreadyExecuted)
    );
}

#[test]
fn a_poll_is_decided_when_its_lead_cannot_be_overturned() {
    let team = make_squad(1, 50, 40, 4);
    let mut p = make_proposal(0, 4, 1);
    cast_vote(&team, &mut p, false, &addr(77), &addr(1), 3, 40, 100, 150).unwrap();
    cast_vote(&team, &mut p, false, &addr(77), &addr(2), 1, 20, 100, 150).unwrap();
    // 40 leads 20 with 40 to come
    assert!(!p.execute_ready);
    cast_vote(&team, &mut p, false, &addr(77), &addr(3), 3, 21, 100, 150).unwrap();
    // 61 leads 20 with 19 to come, quorum 3 of 4, support 61 percent
    assert!(p.execute_ready);
    assert!(!p.executed);
    assert_eq!(p.votes, vec![0, 20, 0, 61, 0]);
    // a poll is never rejected
    let mut q = make_proposal(0, 2, 1);
    cast_vote(&team, &mut q, false, &addr(77), &addr(1), 1, 90, 100, 150).unwrap();
    assert!(!q.executed);
}

#[test]
fn the_snapshot_is_frozen_by_the_vote_that_decides() {
    let mut team = make_squad(1, 25, 50, 4);
    let mut p = make_proposal(1, 2, 1);
    cast_vote(&team, &mut p, false, &addr(77), &addr(1), 0, 10, 100, 150).unwrap();
    assert_eq!((p.supply_at_execute, p.members_at_execute, p.execute_ready), (100, 4, false));
    team.add_member(addr(5), Member { equity_token_account: addr(105) }).unwrap();
    cast_vote(&team, &mut p, false, &addr(77), &addr(2), 0, 50, 110, 150).unwrap();
    assert_eq!((p.supply_at_execute, p.members_at_execute, p.execute_ready), (110, 5, true));
    team.add_member(addr(6), Member { equity_token_account: addr(106) }).unwrap();
    cast_vote(&team, &mut p, false, &addr(77), &addr(3), 1, 5, 500, 150).unwrap();
    assert_eq!((p.supply_at_execute, p.members_at_execute, p.execute_ready), (110, 5, true));
    assert_eq!(p.votes, vec![60, 5, 0, 0, 0]);
}

#[test]
fn a_multisig_approves_at_its_quorum() {
    let ms = make_squad(2, 2, 0, 3);
    let mut p = make_proposal(2, 2, 1);
    let receipt = cast_multisig_vote(&ms, &mut p, false, &addr(78), &addr(1), 0, 150).unwrap();
    assert_eq!(receipt.weight, 1);
    assert_eq!(receipt.voter, addr(1));
    assert_eq!(receipt.proposal_address, addr(78));
    assert!(!p.execute_ready);
    assert_eq!(p.threshold_at_execute, 0);
    cast_multisig_vote(&ms, &mut p, false, &addr(78), &addr(2), 0, 150).unwrap();
    assert!(p.execute_ready);
    assert!(!p.executed);
    assert_eq!(p.threshold_at_execute, 2);
    assert_eq!(p.members_at_execute, 3);
    assert_eq!(p.votes, vec![2, 0, 0, 0, 0]);
    // a later vote under another quorum leaves the bar where it was
    let mut changed = ms.clone();
    changed.vote_quorum = 3;
    cast_multisig_vote(&changed, &mut p, false, &addr(78), &addr(3), 1, 150).unwrap();
    assert_eq!(p.threshold_at_execute, 2);
    assert!(p.execute_ready);
}

#[test]
fn a_multisig_rejects_when_the_quorum_is_out_of_reach() {
    let ms = make_squad(2, 2, 0, 3);
    let mut p = make_proposal(3, 2, 1);
    cast_multisig_vote(&ms, &mut p, false, &addr(78), &addr(1), 1, 150).unwrap();
    // one against: two can still approve
    assert!(!p.executed);
    assert!(!p.execute_ready);
    cast_multisig_vote(&ms, &mut p, false, &addr(78), &addr(2), 1, 150).unwrap();
    // two against: one approval at most
    assert!(p.executed);
    assert!(p.execute_ready);
    assert_eq!(p.threshold_at_execute, 2);
    assert_eq!(
        cast_multisig_vote(&ms, &mut p, false, &addr(78), &addr(3), 0, 150),
        Err(SquadError::AlreadyExecuted)
    );
}
