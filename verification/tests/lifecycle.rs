use squads::address::Address;
use squads::error::{ErrorKind, SquadError};
use squads::lifecycle::{create_proposal, ProposalRequest};
use squads::registry::{admit_members, create_multisig, create_squad};
use squads::roster::Member;
use squads::state::proposal::Proposal;
use squads::state::squad::Squad;

fn addr(n: u8) -> Address {
    Address::new([n; 32])
}

fn numbered(n: u16) -> Address {
    let mut bytes = [0u8; 32];
    bytes[0] = (n >> 8) as u8;
    bytes[1] = (n & 0xff) as u8;
    bytes[2] = 1;
    Address::new(bytes)
}

fn make_squad(mode: u8, members: u8) -> Squad {
    let mut squad = Squad::blank();
    squad.is_initialized = true;
    squad.allocation_type = mode;
    squad.vote_quorum = 2;
    squad.vote_support = 50;
    for n in 1..=members {
        squad.add_member(addr(n), Member { equity_token_account: addr(100 + n) }).unwrap();
    }
    squad
}

fn request(kind: u8, options: u8, amount: u64) -> ProposalRequest {
    ProposalRequest {
        proposal_type: kind,
        votes_num: options,
        title: String::from("title"),
        description: String::from("description"),
        link: String::from("link"),
        vote_labels: vec![String::from("yes"), String::from("no")],
        start_timestamp: 100,
        close_timestamp: 200,
        amount,
        minimum_out: 9,
        source: addr(60),
        destination: addr(70),
    }
}

#[test]
fn proposals_take_consecutive_indices() {
    let mut squad = make_squad(1, 3);
    squad.proposal_nonce = 41;
    let mut first = Proposal::blank();
    let mut second = Proposal::blank();
    let mut third = Proposal::blank();
    create_proposal(&mut squad, &mut first, &addr(80), &addr(1), request(1, 2, 60), 50).unwrap();
    assert_eq!(first.proposal_index, 42);
    assert_eq!(squad.proposal_nonce, 42);
    create_proposal(&mut squad, &mut second, &addr(80), &addr(2), request(0, 5, 0), 51).unwrap();
    assert_eq!(second.proposal_index, 43);
    // a creation that is refused takes no index
    let mut refused = Proposal::blank();
    assert!(create_proposal(&mut squad, &mut refused, &addr(80), &addr(9), request(1, 2, 60), 52)
        .is_err());
    assert_eq!(squad.proposal_nonce, 43);
    create_proposal(&mut squad, &mut third, &addr(80), &addr(3), request(3, 2, 5), 53).unwrap();
    assert_eq!(third.proposal_index, 44);
    assert_eq!(squad.proposal_nonce, 44);
}

#[test]
fn the_counter_does_not_wrap() {
    let mut squad = make_squad(1, 3);
    squad.proposal_nonce = u32::MAX - 1;
    let mut last = Proposal::blank();
    create_proposal(&mut squad, &mut last, &addr(80), &addr(1), request(1, 2, 60), 50).unwrap();
    assert_eq!(last.proposal_index, u32::MAX);
    let mut beyond = Proposal::blank();
    let before = squad.clone();
    assert_eq!(
        create_proposal(&mut squad, &mut beyond, &addr(80), &addr(1), request(1, 2, 60), 50),
        Err(SquadError::Overflow)
    );
    assert_eq!(squad, before);
    assert_eq!(beyond, Proposal::blank());
}

#[test]
fn a_proposal_records_what_was_asked() {
    let mut squad = make_squad(1, 3);
    let mut p = Proposal::blank();
    create_proposal(&mut squad, &mut p, &addr(80), &addr(1), request(8, 2, 1000), 50).unwrap();
    let mut expected = Proposal::blank();
    expected.is_initialized = true;
    expected.proposal_type = 8;
    expected.title = String::from("title");
    expected.description = String::from("description");
    expected.link = String::from("link");
    expected.votes_labels = vec![String::from("yes"), String::from("no")];
    expected.creator = addr(1);
    expected.squad_address = addr(80);
    expected.votes_num = 2;
    expected.start_timestamp = 100;
    expected.close_timestamp = 200;
    expected.created_timestamp = 50;
    expected.execution_amount = 1000;
    expected.execution_amount_out = 9;
    expected.execution_source = addr(60);
    expected.execution_destination = addr(70);
    expected.proposal_index = 1;
    assert_eq!(p, expected);
    // a proposal about a member has the squad for its source
    let mut p = Proposal::blank();
    create_proposal(&mut squad, &mut p, &addr(80), &addr(1), request(5, 2, 25), 50).unwrap();
    assert_eq!(p.execution_source, addr(80));
    assert_eq!(p.execution_destination, addr(70));
    assert_eq!(p.execution_amount, 25);
    assert_eq!(p.execution_amount_out, 0);
    // a removal carries no amount
    let mut p = Proposal::blank();
    create_proposal(&mut squad, &mut p, &addr(80), &addr(1), request(6, 2, 25), 50).unwrap();
    assert_eq!(p.execution_amount, 0);
    assert_eq!(p.execution_destination, addr(70));
    // a payment names its source and destination
    let mut p = Proposal::blank();
    create_proposal(&mut squad, &mut p, &addr(80), &addr(1), request(4, 2, 25), 50).unwrap();
    assert_eq!((p.execution_source, p.execution_destination), (addr(60), addr(70)));
    assert_eq!(p.execution_amount_out, 0);
    // a poll has neither amount nor accounts
    let mut p = Proposal::blank();
    create_proposal(&mut squad, &mut p, &addr(80), &addr(1), request(0, 3, 25), 50).unwrap();
    assert_eq!(p.execution_amount, 0);
    assert_eq!((p.execution_source, p.execution_destination), (addr(0), addr(0)));
    assert_eq!(p.votes_num, 3);
}

#[test]
fn voting_in_a_multisig_opens_at_once() {
    let mut squad = make_squad(2, 3);
    let mut p = Proposal::blank();
    create_proposal(&mut squad, &mut p, &addr(80), &addr(1), request(3, 2, 5), 50).unwrap();
    assert_eq!(p.start_timestamp, 50);
    assert_eq!(p.created_timestamp, 50);
    assert_eq!(p.close_timestamp, 200);
}

#[test]
fn each_refusal_of_a_creation_has_its_cause() {
    let mut team = make_squad(1, 3);
    let mut p = Proposal::blank();
    let check = |squad: &mut Squad, p: &mut Proposal, creator: u8, r: ProposalRequest| {
        let before = (squad.clone(), p.clone());
        let result = create_proposal(squad, p, &addr(80), &addr(creator), r, 50);
        if result.is_err() {
            assert_eq!((squad.clone(), p.clone()), before);
        }
        result
    };
    assert_eq!(check(&mut team, &mut p, 9, request(1, 2, 60)), Err(SquadError::NotMember));
    assert_eq!(SquadError::NotMember.kind(), ErrorKind::Authorization);
    team.open = true;
    assert_eq!(check(&mut team, &mut p, 1, request(1, 2, 60)), Err(SquadError::DraftSquad));
    team.open = false;
    assert_eq!(check(&mut team, &mut p, 1, request(9, 2, 60)), Err(SquadError::UnknownProposalType));
    assert_eq!(check(&mut team, &mut p, 1, request(1, 3, 60)), Err(SquadError::OutOfRange));
    assert_eq!(check(&mut team, &mut p, 1, request(0, 6, 0)), Err(SquadError::OutOfRange));
    for bad in [0u64, 101, u64::MAX] {
        assert_eq!(check(&mut team, &mut p, 1, request(1, 2, bad)), Err(SquadError::OutOfRange));
        assert_eq!(check(&mut team, &mut p, 1, request(2, 2, bad)), Err(SquadError::OutOfRange));
    }
    let mut long = request(1, 2, 60);
    long.title = String::from("1234567890123456789012345678901234567");
    assert_eq!(check(&mut team, &mut p, 1, long), Err(SquadError::CapacityExceeded));
    let mut long = request(1, 2, 60);
    long.vote_labels = vec![String::from("a"); 6];
    assert_eq!(check(&mut team, &mut p, 1, long), Err(SquadError::CapacityExceeded));
    let mut long = request(1, 2, 60);
    long.vote_labels = vec![String::from("123456789012345678901234567890123456789012345")];
    assert_eq!(check(&mut team, &mut p, 1, long), Err(SquadError::CapacityExceeded));
    let mut long = request(1, 2, 60);
    long.link = String::from("1234567890123456789012345678901234567890123456789");
    assert_eq!(check(&mut team, &mut p, 1, long), Err(SquadError::CapacityExceeded));
    let mut ms = make_squad(2, 3);
    for kind in [0u8, 1, 7] {
        let options = if kind == 0 { 3 } else { 2 };
        assert_eq!(check(&mut ms, &mut p, 1, request(kind, options, 50)), Err(SquadError::WrongMode));
    }
    assert_eq!(SquadError::WrongMode.kind(), ErrorKind::TypeMismatch);
    assert_eq!(check(&mut ms, &mut p, 1, request(2, 2, 4)), Err(SquadError::OutOfRange));
    assert_eq!(check(&mut ms, &mut p, 1, request(2, 2, 0)), Err(SquadError::OutOfRange));
    assert_eq!(check(&mut ms, &mut p, 1, request(2, 2, 3)), Ok(()));
    let mut taken = Proposal::blank();
    taken.is_initialized = true;
    assert_eq!(
        check(&mut team, &mut taken, 1, request(1, 2, 60)),
        Err(SquadError::AlreadyInitialized)
    );
    let mut odd = make_squad(7, 3);
    let mut fresh = Proposal::blank();
    assert_eq!(check(&mut odd, &mut fresh, 1, request(2, 2, 50)), Err(SquadError::WrongMode));
}

#[test]
fn a_team_squad_starts_as_a_draft() {
    let mut squad = Squad::blank();
    let created = create_squad(
        &mut squad,
        1,
        60,
        40,
        5,
        String::from("name"),
        String::from("about"),
        String::from("TKN"),
        &addr(1),
        &addr(2),
        &addr(3),
        77,
        String::from("0123456789"),
    );
    assert_eq!(created, Ok(()));
    let mut expected = Squad::blank();
    expected.is_initialized = true;
    expected.open = true;
    expected.allocation_type = 1;
    expected.vote_support = 60;
    expected.vote_quorum = 40;
    expected.core_threshold = 5;
    expected.squad_name = String::from("name");
    expected.description = String::from("about");
    expected.token = String::from("TKN");
    expected.admin = addr(1);
    expected.mint_address = addr(2);
    expected.sol_account = addr(3);
    expected.created_on = 77;
    expected.random_id = String::from("0123456789");
    assert_eq!(squad, expected);
    // it exists now
    let before = squad.clone();
    let again = create_squad(
        &mut squad,
        1,
        60,
        40,
        5,
        String::from("name"),
        String::from("about"),
        String::from("TKN"),
        &addr(1),
        &addr(2),
        &addr(3),
        77,
        String::from("0123456789"),
    );
    assert_eq!(again, Err(SquadError::SquadAlreadyExists));
    assert_eq!(squad, before);
}

#[test]
fn a_team_squad_takes_percentages_from_one_to_a_hundred() {
    let make = |mode: u8, support: u8, quorum: u8, token: &str| {
        let mut squad = Squad::blank();
        let result = create_squad(
            &mut squad,
            mode,
            support,
            quorum,
            0,
            String::from("name"),
            String::from("about"),
            String::from(token),
            &addr(1),
            &addr(2),
            &addr(3),
            77,
            String::from("0123456789"),
        );
        if result.is_err() {
            assert_eq!(squad, Squad::blank());
        }
        result
    };
    assert_eq!(make(1, 1, 1, "TKN"), Ok(()));
    assert_eq!(make(1, 100, 100, "TKN"), Ok(()));
    assert_eq!(make(1, 0, 50, "TKN"), Err(SquadError::OutOfRange));
    assert_eq!(make(1, 50, 0, "TKN"), Err(SquadError::OutOfRange));
    assert_eq!(make(1, 101, 50, "TKN"), Err(SquadError::OutOfRange));
    assert_eq!(make(1, 50, 101, "TKN"), Err(SquadError::OutOfRange));
    assert_eq!(make(2, 50, 50, "TKN"), Err(SquadError::WrongMode));
    assert_eq!(make(0, 50, 50, "TKN"), Err(SquadError::WrongMode));
    assert_eq!(make(1, 50, 50, "TOKENS!"), Err(SquadError::CapacityExceeded));
}

#[test]
fn a_multisig_takes_a_quorum_of_its_members() {
    let make = |quorum: u8, members: Vec<Address>| {
        let mut squad = Squad::blank();
        let result = create_multisig(
            &mut squad,
            quorum,
            String::from("name"),
            String::from("about"),
            &addr(1),
            &addr(3),
            77,
            String::from("0123456789"),
            &members,
        );
        if result.is_err() {
            assert_eq!(squad, Squad::blank());
        }
        result.map(|_| squad)
    };
    let squad = make(2, vec![addr(7), addr(5), addr(6)]).unwrap();
    assert_eq!(squad.allocation_type, 2);
    assert!(!squad.open);
    assert!(squad.is_initialized);
    assert_eq!(squad.vote_quorum, 2);
    assert_eq!(squad.vote_support, 0);
    assert_eq!(squad.admin, addr(1));
    assert_eq!(squad.sol_account, addr(3));
    assert_eq!(squad.created_on, 77);
    assert_eq!(
        squad.members.to_pairs(),
        vec![(addr(5), addr(5)), (addr(6), addr(6)), (addr(7), addr(7))]
    );
    assert!(make(3, vec![addr(7), addr(5), addr(6)]).is_ok());
    assert_eq!(make(0, vec![addr(7), addr(5), addr(6)]), Err(SquadError::OutOfRange));
    assert_eq!(make(4, vec![addr(7), addr(5), addr(6)]), Err(SquadError::OutOfRange));
    assert_eq!(make(1, vec![]), Err(SquadError::OutOfRange));
    // a member named twice counts once
    assert_eq!(make(3, vec![addr(7), addr(5), addr(7)]), Err(SquadError::OutOfRange));
    assert_eq!(make(2, vec![addr(7), addr(5), addr(7)]).unwrap().members.len(), 2);
    let many: Vec<Address> = (0..151u16).map(numbered).collect();
    assert_eq!(make(2, many.clone()), Err(SquadError::CapacityExceeded));
    assert_eq!(make(150, many[..150].to_vec()).unwrap().members.len(), 150);
}

#[test]
fn members_are_admitted_to_a_draft_once() {
    let mut squad = make_squad(1, 0);
    squad.open = true;
    squad.admin = addr(1);
    let members = vec![(addr(5), addr(50)), (addr(4), addr(40))];
    let before = squad.clone();
    assert_eq!(admit_members(&mut squad, &addr(2), &members), Err(SquadError::NotAdmin));
    assert_eq!(squad, before);
    assert_eq!(admit_members(&mut squad, &addr(1), &members), Ok(()));
    assert!(!squad.open);
    assert_eq!(squad.members.to_pairs(), vec![(addr(4), addr(40)), (addr(5), addr(50))]);
    let before = squad.clone();
    assert_eq!(admit_members(&mut squad, &addr(1), &members), Err(SquadError::NotDraft));
    assert_eq!(SquadError::NotDraft.kind(), ErrorKind::StateConflict);
    assert_eq!(squad, before);
    let mut crowded = make_squad(1, 0);
    crowded.open = true;
    crowded.admin = addr(1);
    let many: Vec<(Address, Address)> = (0..151u16).map(|n| (numbered(n), addr(1))).collect();
    assert_eq!(admit_members(&mut crowded, &addr(1), &many), Err(SquadError::CapacityExceeded));
    assert!(crowded.open);
    assert_eq!(crowded.members.len(), 0);
}
