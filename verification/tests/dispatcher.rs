use squads::address::Address;
use squads::dispatcher::{check_execution, execute, Effect};
use squads::error::{ErrorKind, SquadError};
use squads::roster::Member;
use squads::state::proposal::{Proposal, ProposalType};
use squads::state::squad::{AllocationType, Squad};

fn addr(n: u8) -> Address {
    Address::new([n; 32])
}

fn make_squad(mode: u8, quorum: u8, support: u8, members: u8) -> Squad {
    let mut squad = Squad::blank();
    squad.is_initialized = true;
    squad.allocation_type = mode;
    squad.vote_quorum = quorum;
    squad.vote_support = support;
    squad.proposal_nonce = 8;
    for n in 1..=members {
        squad.add_member(addr(n), Member { equity_token_account: addr(100 + n) }).unwrap();
    }
    squad
}

fn decided(kind: ProposalType, amount: u64, destination: Address) -> Proposal {
    let mut proposal = Proposal::blank();
    proposal.is_initialized = true;
    proposal.proposal_type = kind.as_u8();
    proposal.votes_num = 2;
    proposal.proposal_index = 5;
    proposal.execution_amount = amount;
    proposal.execution_destination = destination;
    proposal.votes = vec![3, 0, 0, 0, 0];
    proposal.has_voted = vec![addr(1), addr(2), addr(3)];
    proposal.has_voted_num = 3;
    proposal.execute_ready = true;
    proposal.threshold_at_execute = 2;
    proposal.members_at_execute = 3;
    proposal.supply_at_execute = 3;
    proposal
}

fn run(squad: &mut Squad, proposal: &mut Proposal) -> Result<Effect, SquadError> {
    let mode = AllocationType::from_u8(squad.allocation_type).unwrap();
    execute(squad, proposal, mode, &addr(1), 3, &addr(200), 10, 1000)
}

#[test]
fn execution_marks_the_proposal_and_happens_once() {
    let mut squad = make_squad(2, 2, 0, 3);
    let mut proposal = decided(ProposalType::WithdrawSol, 500, addr(50));
    let before = squad.clone();
    assert_eq!(run(&mut squad, &mut proposal), Ok(Effect::PaySol { amount: 500 }));
    assert!(proposal.executed);
    assert_eq!(proposal.executed_by, addr(1));
    assert_eq!(proposal.execution_date, 1000);
    assert_eq!(squad, before);
    let after = proposal.clone();
    assert_eq!(run(&mut squad, &mut proposal), Err(SquadError::AlreadyExecuted));
    assert_eq!(SquadError::AlreadyExecuted.kind(), ErrorKind::StateConflict);
    assert_eq!(proposal, after);
    assert_eq!(squad, before);
    // whoever asks, and whatever has become of the squad
    let mut other = make_squad(1, 1, 1, 1);
    assert_eq!(
        execute(
            &mut other,
            &mut proposal,
            AllocationType::TeamCoordination,
            &addr(99),
            0,
            &addr(0),
            0,
            5
        ),
        Err(SquadError::AlreadyExecuted)
    );
    assert_eq!(proposal, after);
}

#[test]
fn each_refusal_of_an_execution_has_its_cause() {
    let squad = make_squad(2, 2, 0, 3);
    let proposal = decided(ProposalType::WithdrawSol, 500, addr(50));
    assert_eq!(check_execution(&squad, &proposal, 2, &addr(1), 0), Ok(ProposalType::WithdrawSol));
    assert_eq!(check_execution(&squad, &proposal, 1, &addr(1), 0), Err(SquadError::WrongMode));
    assert_eq!(check_execution(&squad, &proposal, 2, &addr(9), 0), Err(SquadError::NotMember));
    let mut text = proposal.clone();
    text.proposal_type = 0;
    assert_eq!(check_execution(&squad, &text, 2, &addr(1), 0), Err(SquadError::NotExecutable));
    let mut unknown = proposal.clone();
    unknown.proposal_type = 9;
    assert_eq!(
        check_execution(&squad, &unknown, 2, &addr(1), 0),
        Err(SquadError::UnknownProposalType)
    );
    for kind in [ProposalType::Support, ProposalType::MintMemberToken] {
        let mut team_only = proposal.clone();
        team_only.proposal_type = kind.as_u8();
        assert_eq!(check_execution(&squad, &team_only, 2, &addr(1), 0), Err(SquadError::WrongMode));
    }
    let mut short = proposal.clone();
    short.votes = vec![1, 0, 0, 0, 0];
    assert_eq!(check_execution(&squad, &short, 2, &addr(1), 0), Err(SquadError::ThresholdNotMet));
    let team = make_squad(1, 50, 50, 3);
    let mut losing = decided(ProposalType::WithdrawSol, 500, addr(50));
    losing.votes = vec![3, 4, 0, 0, 0];
    assert_eq!(check_execution(&team, &losing, 1, &addr(1), 10), Err(SquadError::Rejected));
    assert_eq!(SquadError::Rejected.kind(), ErrorKind::ThresholdNotMet);
    // a multisig counts approvals only
    assert_eq!(check_execution(&squad, &losing, 2, &addr(1), 0), Ok(ProposalType::WithdrawSol));
}

#[test]
fn the_fence_bars_an_undecided_execution() {
    let mut squad = make_squad(2, 2, 0, 3);
    let mut proposal = decided(ProposalType::WithdrawSol, 500, addr(50));
    proposal.execute_ready = false;
    squad.member_lock_index = 4;
    assert!(check_execution(&squad, &proposal, 2, &addr(1), 0).is_ok());
    squad.member_lock_index = 5;
    assert_eq!(check_execution(&squad, &proposal, 2, &addr(1), 0), Err(SquadError::Fenced));
    let before = (squad.clone(), proposal.clone());
    assert_eq!(run(&mut squad, &mut proposal), Err(SquadError::Fenced));
    assert_eq!((squad.clone(), proposal.clone()), before);
    proposal.execute_ready = true;
    assert!(check_execution(&squad, &proposal, 2, &addr(1), 0).is_ok());
}

#[test]
fn a_decided_multisig_proposal_keeps_its_bar() {
    let mut squad = make_squad(2, 3, 0, 3);
    let mut proposal = decided(ProposalType::WithdrawSol, 500, addr(50));
    proposal.votes = vec![2, 0, 0, 0, 0];
    // decided under a quorum of 2: the live quorum of 3 does not matter
    assert!(check_execution(&squad, &proposal, 2, &addr(1), 0).is_ok());
    squad.add_member(addr(4), Member { equity_token_account: addr(4) }).unwrap();
    assert!(check_execution(&squad, &proposal, 2, &addr(1), 0).is_ok());
    // an undecided one is held to the live quorum
    proposal.execute_ready = false;
    squad.member_lock_index = 0;
    assert_eq!(check_execution(&squad, &proposal, 2, &addr(1), 0), Err(SquadError::ThresholdNotMet));
    squad.vote_quorum = 2;
    assert!(check_execution(&squad, &proposal, 2, &addr(1), 0).is_ok());
}

#[test]
fn a_decided_team_proposal_is_held_to_its_snapshot() {
    let mut team = make_squad(1, 60, 50, 3);
    let mut proposal = decided(ProposalType::WithdrawSol, 500, addr(50));
    proposal.votes = vec![50, 10, 0, 0, 0];
    proposal.has_voted = vec![addr(1), addr(2)];
    proposal.has_voted_num = 2;
    proposal.members_at_execute = 3;
    proposal.supply_at_execute = 100;
    // 2 of 3 voted, 50 of 100 approve
    assert!(check_execution(&team, &proposal, 1, &addr(1), 100).is_ok());
    // live supply and live members have grown
    for n in 4..10 {
        team.add_member(addr(n), Member { equity_token_account: addr(100 + n) }).unwrap();
    }
    assert!(check_execution(&team, &proposal, 1, &addr(1), 1_000_000).is_ok());
    // a proposal that is not decided is held to the live numbers
    proposal.execute_ready = false;
    assert_eq!(
        check_execution(&team, &proposal, 1, &addr(1), 100),
        Err(SquadError::ThresholdNotMet)
    );
    // the decision stands when quorum and support are raised
    proposal.execute_ready = true;
    for (quorum, support) in [(70u8, 50u8), (60, 70), (100, 100), (1, 1)] {
        team.vote_quorum = quorum;
        team.vote_support = support;
        assert_eq!(
            check_execution(&team, &proposal, 1, &addr(1), 100),
            Ok(ProposalType::WithdrawSol)
        );
        let mut squad = team.clone();
        let mut executed = proposal.clone();
        assert_eq!(run(&mut squad, &mut executed), Ok(Effect::PaySol { amount: 500 }));
        assert!(executed.executed);
    }
    // approvals that are outweighed still bar it
    proposal.votes = vec![50, 51, 0, 0, 0];
    assert_eq!(check_execution(&team, &proposal, 1, &addr(1), 100), Err(SquadError::Rejected));
}

#[test]
fn a_decided_support_change_executes_under_any_live_support() {
    // frozen at 60 of 100 votes, 2 of 2 members
    for live in [50u8, 70] {
        let mut team = make_squad(1, 50, live, 2);
        let mut proposal = decided(ProposalType::Support, 80, addr(0));
        proposal.votes = vec![60, 0, 0, 0, 0];
        proposal.has_voted = vec![addr(1), addr(2)];
        proposal.has_voted_num = 2;
        proposal.members_at_execute = 2;
        proposal.supply_at_execute = 100;
        assert_eq!(run(&mut team, &mut proposal), Ok(Effect::Nothing));
        assert_eq!(team.vote_support, 80);
        assert!(proposal.executed);
    }
}

#[test]
fn removal_keeps_the_quorum_within_reach() {
    let mut squad = make_squad(2, 3, 0, 3);
    let mut proposal = decided(ProposalType::RemoveMember, 0, addr(3));
    proposal.threshold_at_execute = 3;
    assert_eq!(run(&mut squad, &mut proposal), Ok(Effect::Nothing));
    assert_eq!(squad.vote_quorum, 2);
    assert_eq!(squad.members.len(), 2);
    assert!(!squad.member_exists(&addr(3)));
    assert_eq!(squad.member_lock_index, 8);
    // a quorum under the roster stays
    let mut squad = make_squad(2, 2, 0, 3);
    let mut proposal = decided(ProposalType::RemoveMember, 0, addr(3));
    assert_eq!(run(&mut squad, &mut proposal), Ok(Effect::Nothing));
    assert_eq!(squad.vote_quorum, 2);
    assert_eq!(squad.members.len(), 2);
    // the last member leaves
    let mut squad = make_squad(2, 1, 0, 1);
    let mut proposal = decided(ProposalType::RemoveMember, 0, addr(1));
    assert_eq!(run(&mut squad, &mut proposal), Ok(Effect::Nothing));
    assert_eq!(squad.vote_quorum, 0);
    assert_eq!(squad.members.len(), 0);
    // a stranger cannot be removed
    let mut squad = make_squad(2, 2, 0, 3);
    let mut proposal = decided(ProposalType::RemoveMember, 0, addr(9));
    let before = squad.clone();
    assert_eq!(run(&mut squad, &mut proposal), Err(SquadError::UnknownMember));
    assert_eq!(squad, before);
    // a team burns what the member holds and keeps its percentage
    let mut team = make_squad(1, 60, 50, 3);
    let mut proposal = decided(ProposalType::RemoveMember, 0, addr(3));
    assert_eq!(run(&mut team, &mut proposal), Ok(Effect::Expel { burn: 10 }));
    assert_eq!(team.vote_quorum, 60);
    assert_eq!(team.member_lock_index, 8);
}

#[test]
fn admission_records_the_member_and_locks() {
    let mut squad = make_squad(2, 2, 0, 3);
    let mut proposal = decided(ProposalType::AddMember, 0, addr(7));
    assert_eq!(run(&mut squad, &mut proposal), Ok(Effect::Nothing));
    assert_eq!(squad.members.get(&addr(7)), Some(Member { equity_token_account: addr(200) }));
    assert_eq!(squad.members.len(), 4);
    assert_eq!(squad.member_lock_index, 8);
    assert_eq!(squad.vote_quorum, 2);
    let mut again = decided(ProposalType::AddMember, 0, addr(7));
    let before = squad.clone();
    assert_eq!(run(&mut squad, &mut again), Err(SquadError::AlreadyMember));
    assert_eq!(squad, before);
    let mut team = make_squad(1, 60, 50, 3);
    let mut proposal = decided(ProposalType::AddMember, 25, addr(7));
    assert_eq!(run(&mut team, &mut proposal), Ok(Effect::Admit { equity: 25 }));
    assert!(team.member_exists(&addr(7)));
    // a full roster admits nobody
    let mut full = make_squad(2, 2, 0, 150);
    let mut proposal = decided(ProposalType::AddMember, 0, addr(200));
    assert_eq!(run(&mut full, &mut proposal), Err(SquadError::CapacityExceeded));
    assert!(!proposal.executed);
}

#[test]
fn thresholds_change_within_their_bounds() {
    let mut team = make_squad(1, 60, 50, 3);
    let mut proposal = decided(ProposalType::Support, 75, addr(0));
    assert_eq!(run(&mut team, &mut proposal), Ok(Effect::Nothing));
    assert_eq!((team.vote_support, team.vote_quorum), (75, 60));
    let mut proposal = decided(ProposalType::Quorum, 100, addr(0));
    proposal.votes = vec![3, 0, 0, 0, 0];
    assert_eq!(run(&mut team, &mut proposal), Ok(Effect::Nothing));
    assert_eq!((team.vote_support, team.vote_quorum), (75, 100));
    for bad in [0u64, 101, 256, 300, u64::MAX] {
        let mut proposal = decided(ProposalType::Quorum, bad, addr(0));
        let before = team.clone();
        assert_eq!(run(&mut team, &mut proposal), Err(SquadError::OutOfRange));
        assert_eq!(team, before);
        let mut proposal = decided(ProposalType::Support, bad, addr(0));
        assert_eq!(run(&mut team, &mut proposal), Err(SquadError::OutOfRange));
    }
    let mut squad = make_squad(2, 2, 0, 3);
    let mut proposal = decided(ProposalType::Quorum, 3, addr(0));
    assert_eq!(run(&mut squad, &mut proposal), Ok(Effect::Nothing));
    assert_eq!(squad.vote_quorum, 3);
    let mut proposal = decided(ProposalType::Quorum, 4, addr(0));
    proposal.threshold_at_execute = 3;
    assert_eq!(run(&mut squad, &mut proposal), Err(SquadError::OutOfRange));
    let mut proposal = decided(ProposalType::Quorum, 0, addr(0));
    proposal.threshold_at_execute = 3;
    assert_eq!(run(&mut squad, &mut proposal), Err(SquadError::OutOfRange));
    assert_eq!(squad.vote_quorum, 3);
}

#[test]
fn equity_is_set_by_minting_or_burning_the_difference() {
    let mut team = make_squad(1, 60, 50, 3);
    let mut proposal = decided(ProposalType::MintMemberToken, 25, addr(2));
    assert_eq!(run(&mut team, &mut proposal), Ok(Effect::MintEquity { amount: 15 }));
    assert_eq!(proposal.execution_amount_out, 10);
    assert_eq!(team.member_lock_index, 8);
    let mut team = make_squad(1, 60, 50, 3);
    let mut proposal = decided(ProposalType::MintMemberToken, 4, addr(2));
    assert_eq!(run(&mut team, &mut proposal), Ok(Effect::BurnEquity { amount: 6 }));
    assert_eq!(team.member_lock_index, 8);
    let mut team = make_squad(1, 60, 50, 3);
    let mut proposal = decided(ProposalType::MintMemberToken, 10, addr(2));
    assert_eq!(run(&mut team, &mut proposal), Ok(Effect::Nothing));
    assert_eq!(team.member_lock_index, 0);
    assert!(proposal.executed);
    let mut proposal = decided(ProposalType::MintMemberToken, 10, addr(9));
    assert_eq!(run(&mut team, &mut proposal), Err(SquadError::UnknownMember));
}

#[test]
fn payments_and_swaps_are_left_to_the_ledger() {
    let mut squad = make_squad(2, 2, 0, 3);
    let mut proposal = decided(ProposalType::WithdrawSpl, 77, addr(50));
    assert_eq!(run(&mut squad, &mut proposal), Ok(Effect::PayTokens { amount: 77 }));
    let mut proposal = decided(ProposalType::Swap, 1000, addr(50));
    proposal.execution_amount_out = 990;
    let before = squad.clone();
    assert_eq!(
        run(&mut squad, &mut proposal),
        Ok(Effect::Swap { amount_in: 1000, minimum_out: 990 })
    );
    assert_eq!(squad, before);
    assert_eq!(proposal.execution_amount_out, 990);
}
