use borsh::BorshSerialize;
use solana_program::pubkey::Pubkey;
use squads::address::Address;
use squads::error::SquadError;
use squads::roster::{Member, Roster};
use squads::state::proposal::{Proposal, ProposalType, PROPOSAL_TOTAL_BYTES};
use squads::state::squad::{
    count_from_le, transform_u32_to_array_of_u8, AllocationType, Squad, SQUAD_TOTAL_BYTES,
};
use squads::state::vote::{VoteReceipt, VOTE_RECEIPT_TOTAL_BYTES};
use std::collections::BTreeMap;
use std::time::{SystemTime, UNIX_EPOCH};

fn unique() -> Address {
    Address::new(Pubkey::new_unique().to_bytes())
}

fn addr(n: u8) -> Address {
    Address::new([n; 32])
}

fn now() -> i64 {
    SystemTime::now().duration_since(UNIX_EPOCH).unwrap().as_secs() as i64
}

fn zeros(n: usize) -> String {
    String::from_utf8(vec![0; n]).unwrap()
}

fn sample_squad() -> Squad {
    Squad {
        is_initialized: true,
        open: false,
        emergency_lock: false,
        allocation_type: 1,
        vote_support: 50,
        vote_quorum: 50,
        core_threshold: 20,
        squad_name: String::from("THIS IS MY SQUAD"),
        description: String::from("THIS IS A TEST DESCRIPTION"),
        token: String::from("TOKENS"),
        future_setting_1: 0,
        future_setting_2: 0,
        future_setting_3: 0,
        future_setting_4: 0,
        future_setting_5: 0,
        admin: unique(),
        sol_account: unique(),
        mint_address: unique(),
        future_address1: unique(),
        future_address2: unique(),
        future_address3: unique(),
        future_address4: unique(),
        future_address5: unique(),
        random_id: String::from("1234567890"),
        child_index: 0,
        members: Roster::new(),
        proposal_nonce: 0,
        member_lock_index: 0,
        created_on: 0,
        reserved: [0; 32],
    }
}

#[test]
fn proposal_struct_size() {
    let mut test_dst: Vec<u8> = vec![0; PROPOSAL_TOTAL_BYTES];
    let description_vec = vec![0; 496];
    let description = String::from_utf8(description_vec).unwrap();

    let link_vec = vec![0; 48];
    let link = String::from_utf8(link_vec).unwrap();

    let votes = vec![0, 3, 2000, 7, 0];

    let has_voted = vec![unique(), unique(), unique()];
    let has_voted_num = has_voted.len() as u8;

    let votes_labels_vec = vec![0; 5];
    let votes_labels: Vec<String> = votes_labels_vec
        .iter()
        .map(|_v| String::from("asdfasdfasdfasdfasdfasdfasdfasdfasdfasdfadfa"))
        .collect();

    let test_proposal = Proposal {
        is_initialized: true,
        proposal_type: 0,
        execution_amount: 100,
        execution_amount_out: 100,
        execution_source: unique(),
        execution_destination: unique(),
        creator: unique(),
        squad_address: unique(),
        title: String::from("This is a test adfasdfasdfasdfasdfff"),
        description,
        link,
        votes_num: 5,
        has_voted_num,
        has_voted,
        votes,
        votes_labels,
        start_timestamp: now(),
        close_timestamp: now(),
        created_timestamp: now(),
        supply_at_execute: 0,
        members_at_execute: 0,
        threshold_at_execute: 0,
        executed: false,
        execute_ready: false,
        execution_date: now(),
        instruction_index: 0,
        multiple_choice: false,
        executed_by: unique(),
        proposal_index: 0,
        reserved: [0; 16],
    };

    test_proposal.pack_into_slice(&mut test_dst).unwrap();

    let mut test_proposal_deser = Proposal::unpack_unchecked(&test_dst).unwrap();
    println!("proposal unpack: {:?}", test_proposal_deser);
    assert_eq!(test_proposal_deser, test_proposal);

    test_proposal_deser.has_voted.push(unique());
    test_proposal_deser.has_voted_num = test_proposal_deser.has_voted.len() as u8;
    test_proposal_deser.pack_into_slice(&mut test_dst).unwrap();

    let again = Proposal::unpack_unchecked(&test_dst).unwrap();
    println!("proposal unpack: {:?}", again);
    assert_eq!(again, test_proposal_deser);
    assert_eq!(again.has_voted.len(), 4);

    println!("proposal packed len: {:?}", test_dst.len());
    println!("total proposal size: {:?}", PROPOSAL_TOTAL_BYTES);
    assert_eq!(test_dst.len(), 6002);
    assert_eq!(PROPOSAL_TOTAL_BYTES, 6002);
}

#[test]
fn squad_member_size_est() {
    let mut members = Roster::new();
    let mut reference = BTreeMap::<Pubkey, Pubkey>::new();
    for _i in 0..3 {
        let key = Pubkey::new_unique();
        let equity = Pubkey::new_unique();
        members
            .insert(
                Address::new(key.to_bytes()),
                Member { equity_token_account: Address::new(equity.to_bytes()) },
            )
            .unwrap();
        reference.insert(key, equity);
    }
    let mut squad = sample_squad();
    squad.members = members;
    let mut dst: Vec<u8> = vec![0; SQUAD_TOTAL_BYTES];
    squad.pack_into_slice(&mut dst).unwrap();
    let members_enc = reference.try_to_vec().unwrap();
    println!("members length: {:?}", members_enc.len());
    assert_eq!(members_enc.len(), 4 + 3 * 64);
    // the roster is persisted as the ledger's serializer writes the map
    assert_eq!(count_from_le(&dst[346..350]), members_enc.len());
    assert_eq!(&dst[350..350 + members_enc.len()], &members_enc[..]);
}

#[test]
fn squad_build_from_empty() {
    let squad_arr: Vec<u8> = vec![0; SQUAD_TOTAL_BYTES];
    let squad_info = Squad::unpack_unchecked(&squad_arr).unwrap();
    let mut expected = Squad::blank();
    expected.squad_name = zeros(24);
    expected.description = zeros(36);
    expected.token = zeros(6);
    expected.random_id = zeros(10);
    assert_eq!(squad_info, expected);
}

#[test]
fn squad_build_from_struct() {
    let squad_info = sample_squad();
    let mut squad_dst: Vec<u8> = vec![0; SQUAD_TOTAL_BYTES];
    let packed_squad = squad_info.pack_into_slice(&mut squad_dst);
    assert_eq!(packed_squad, Ok(()));
    assert_eq!(squad_dst.len(), 10228);
    assert_eq!(&squad_dst[0..7], &[1, 0, 0, 1, 50, 50, 20]);
    assert_eq!(&squad_dst[7..23], b"THIS IS MY SQUAD");
    assert_eq!(&squad_dst[23..31], &[0; 8]);
    assert_eq!(&squad_dst[31..57], b"THIS IS A TEST DESCRIPTION");
    assert_eq!(&squad_dst[67..73], b"TOKENS");
    assert_eq!(&squad_dst[78..110], &squad_info.admin.bytes);
    assert_eq!(&squad_dst[110..142], &squad_info.mint_address.bytes);
    assert_eq!(&squad_dst[142..174], &squad_info.sol_account.bytes);
    // an empty roster: its four bytes of length, and a length of zero
    assert_eq!(&squad_dst[346..354], &[4, 0, 0, 0, 0, 0, 0, 0]);
    assert_eq!(&squad_dst[9954..9964], b"1234567890");
}

#[test]
fn squad_survives_its_account() {
    let mut squad = sample_squad();
    squad.squad_name = String::from("THIS IS MY SQUAD\0\0\0\0\0\0\0\0");
    squad.description = String::from("THIS IS A TEST DESCRIPTION\0\0\0\0\0\0\0\0\0\0");
    squad.proposal_nonce = 0x0a0b0c0d;
    squad.member_lock_index = 7;
    squad.created_on = -5;
    squad.open = true;
    squad.future_address1 = addr(0);
    squad.future_address2 = addr(0);
    squad.future_address3 = addr(0);
    squad.future_address4 = addr(0);
    squad.future_address5 = addr(0);
    squad.add_member(addr(9), Member { equity_token_account: addr(90) }).unwrap();
    squad.add_member(addr(3), Member { equity_token_account: addr(30) }).unwrap();
    let mut dst: Vec<u8> = vec![0; SQUAD_TOTAL_BYTES];
    squad.pack_into_slice(&mut dst).unwrap();
    assert_eq!(&dst[334..338], &[0x0d, 0x0c, 0x0b, 0x0a]);
    assert_eq!(&dst[338..346], &(-5i64).to_le_bytes());
    assert_eq!(&dst[9968..9972], &[7, 0, 0, 0]);
    assert_eq!(&dst[346..350], &[132, 0, 0, 0]);
    assert_eq!(&dst[350..354], &[2, 0, 0, 0]);
    assert_eq!(&dst[354..386], &[3; 32]);
    assert_eq!(&dst[386..418], &[30; 32]);
    assert_eq!(&dst[418..450], &[9; 32]);
    assert_eq!(Squad::unpack_unchecked(&dst), Ok(squad.clone()));
    assert_eq!(Squad::unpack_from_slice(&dst), Ok(squad));
}

#[test]
fn packing_leaves_what_no_field_fills() {
    let squad = sample_squad();
    let mut dst: Vec<u8> = vec![0xee; SQUAD_TOTAL_BYTES];
    squad.pack_into_slice(&mut dst).unwrap();
    // a text is filled up with zero bytes
    assert_eq!(&dst[7..23], b"THIS IS MY SQUAD");
    assert_eq!(&dst[23..31], &[0; 8]);
    assert_eq!(&dst[57..67], &[0; 10]);
    // the future settings, the future addresses, the child index, the reserve
    assert_eq!(&dst[73..78], &[0xee; 5]);
    assert_eq!(&dst[174..334], &[0xee; 160]);
    assert_eq!(&dst[9964..9968], &[0xee; 4]);
    assert_eq!(&dst[9972..10228], &[0xee; 256]);
    // the roster is laid over the start of its field
    assert_eq!(&dst[350..354], &[0, 0, 0, 0]);
    assert_eq!(&dst[354..9954], &[0xee; 9600]);
    let receipt = VoteReceipt::blank();
    let mut small: Vec<u8> = vec![0xee; VOTE_RECEIPT_TOTAL_BYTES];
    receipt.pack_into_slice(&mut small).unwrap();
    assert_eq!(&small[0..82], &[0; 82]);
    assert_eq!(&small[82..114], &[0xee; 32]);
}

#[test]
fn records_are_refused_where_they_do_not_fit() {
    let mut squad = sample_squad();
    let mut short: Vec<u8> = vec![0; SQUAD_TOTAL_BYTES - 1];
    assert_eq!(squad.pack_into_slice(&mut short), Err(SquadError::MalformedRecord));
    assert_eq!(short, vec![0; SQUAD_TOTAL_BYTES - 1]);
    let mut long: Vec<u8> = vec![0; SQUAD_TOTAL_BYTES + 1];
    assert_eq!(squad.pack_into_slice(&mut long), Err(SquadError::MalformedRecord));
    squad.token = String::from("TOKENS!");
    let mut dst: Vec<u8> = vec![9; SQUAD_TOTAL_BYTES];
    assert_eq!(squad.pack_into_slice(&mut dst), Err(SquadError::CapacityExceeded));
    assert_eq!(dst, vec![9; SQUAD_TOTAL_BYTES]);
    squad.token = String::from("TOKENS");
    squad.squad_name = String::from("1234567890123456789012345");
    assert_eq!(squad.pack_into_slice(&mut dst), Err(SquadError::CapacityExceeded));
    // two bytes for one letter
    squad.squad_name = String::from("12345678901234567890123\u{e9}");
    assert_eq!(squad.pack_into_slice(&mut dst), Err(SquadError::CapacityExceeded));
    squad.squad_name = String::from("1234567890123456789012\u{e9}");
    assert_eq!(squad.pack_into_slice(&mut dst), Ok(()));

    let mut proposal = Proposal::blank();
    let mut dst: Vec<u8> = vec![0; PROPOSAL_TOTAL_BYTES];
    assert_eq!(proposal.pack_into_slice(&mut dst), Ok(()));
    proposal.votes.push(1);
    assert_eq!(proposal.pack_into_slice(&mut dst), Err(SquadError::CapacityExceeded));
    proposal.votes.pop();
    proposal.votes_labels = vec![String::from("a"); 6];
    assert_eq!(proposal.pack_into_slice(&mut dst), Err(SquadError::CapacityExceeded));
    proposal.votes_labels = vec![String::from("123456789012345678901234567890123456789012345")];
    assert_eq!(proposal.pack_into_slice(&mut dst), Err(SquadError::CapacityExceeded));
    proposal.votes_labels = vec![];
    proposal.has_voted = vec![addr(1); 151];
    assert_eq!(proposal.pack_into_slice(&mut dst), Err(SquadError::CapacityExceeded));
    proposal.has_voted = vec![addr(1); 150];
    assert_eq!(proposal.pack_into_slice(&mut dst), Ok(()));
    let mut short: Vec<u8> = vec![0; 10];
    assert_eq!(proposal.pack_into_slice(&mut short), Err(SquadError::MalformedRecord));
    assert_eq!(VoteReceipt::blank().pack_into_slice(&mut short), Err(SquadError::MalformedRecord));
}

#[test]
fn malformed_records_are_refused() {
    let good: Vec<u8> = vec![0; SQUAD_TOTAL_BYTES];
    assert!(Squad::unpack_unchecked(&good).is_ok());
    assert_eq!(Squad::unpack_unchecked(&good[1..]), Err(SquadError::MalformedRecord));
    assert_eq!(Squad::unpack_from_slice(&good[1..]), Err(SquadError::MalformedRecord));
    let mut longer = good.clone();
    longer.push(0);
    assert_eq!(Squad::unpack_unchecked(&longer), Err(SquadError::MalformedRecord));
    assert!(Squad::unpack_from_slice(&longer).is_ok());
    for at in [0usize, 1, 2] {
        let mut bad = good.clone();
        bad[at] = 2;
        assert_eq!(Squad::unpack_unchecked(&bad), Err(SquadError::MalformedRecord));
    }
    // a text that is no text
    let mut bad = good.clone();
    bad[8] = 0xff;
    assert_eq!(Squad::unpack_unchecked(&bad), Err(SquadError::MalformedRecord));
    // a roster whose length is not what its count asks for
    let mut bad = good.clone();
    bad[346] = 4;
    bad[350] = 1;
    assert_eq!(Squad::unpack_unchecked(&bad), Err(SquadError::MalformedRecord));
    bad[346] = 68;
    assert!(Squad::unpack_unchecked(&bad).is_ok());
    bad[346] = 69;
    assert_eq!(Squad::unpack_unchecked(&bad), Err(SquadError::MalformedRecord));
    // a roster beyond its field
    let mut bad = good.clone();
    bad[347] = 0x26;
    assert_eq!(Squad::unpack_unchecked(&bad), Err(SquadError::MalformedRecord));

    let good: Vec<u8> = vec![0; PROPOSAL_TOTAL_BYTES];
    assert!(Proposal::unpack_unchecked(&good).is_ok());
    assert_eq!(Proposal::unpack_unchecked(&good[1..]), Err(SquadError::MalformedRecord));
    for at in [0usize, 5826, 5827, 5837] {
        let mut bad = good.clone();
        bad[at] = 2;
        assert_eq!(Proposal::unpack_unchecked(&bad), Err(SquadError::MalformedRecord));
    }
    let mut bad = good.clone();
    bad[5572 + 44 * 4] = 0x80;
    assert_eq!(Proposal::unpack_unchecked(&bad), Err(SquadError::MalformedRecord));
    // voters recorded, and none persisted
    let mut bad = good.clone();
    bad[727] = 1;
    assert_eq!(Proposal::unpack_unchecked(&bad), Err(SquadError::MalformedRecord));
    bad[728] = 1;
    assert!(Proposal::unpack_unchecked(&bad).is_ok());
    // more voters than the field holds
    bad[727] = 151;
    bad[728] = 151;
    assert_eq!(Proposal::unpack_unchecked(&bad), Err(SquadError::MalformedRecord));

    let good: Vec<u8> = vec![0; VOTE_RECEIPT_TOTAL_BYTES];
    assert_eq!(VoteReceipt::unpack_unchecked(&good), Ok(VoteReceipt::blank()));
    let mut bad = good.clone();
    bad[0] = 7;
    assert_eq!(VoteReceipt::unpack_unchecked(&bad), Err(SquadError::MalformedRecord));
    assert_eq!(VoteReceipt::unpack_unchecked(&good[..113]), Err(SquadError::MalformedRecord));
}

#[test]
fn a_roster_read_back_counts_the_later_of_two_entries() {
    let mut bytes: Vec<u8> = vec![0; SQUAD_TOTAL_BYTES];
    // three pairs, out of order, one address twice
    bytes[346] = 196;
    bytes[350] = 3;
    let pairs: [(u8, u8); 3] = [(9, 90), (2, 20), (9, 91)];
    for (i, (k, v)) in pairs.iter().enumerate() {
        for j in 0..32 {
            bytes[354 + 64 * i + j] = *k;
            bytes[354 + 64 * i + 32 + j] = *v;
        }
    }
    let squad = Squad::unpack_unchecked(&bytes).unwrap();
    assert_eq!(squad.members.to_pairs(), vec![(addr(2), addr(20)), (addr(9), addr(91))]);
    // the reference serializer reads the same map
    let reference: BTreeMap<[u8; 32], [u8; 32]> =
        borsh::BorshDeserialize::try_from_slice(&bytes[350..350 + 196]).unwrap();
    let read: Vec<(Address, Address)> =
        reference.iter().map(|(k, v)| (Address::new(*k), Address::new(*v))).collect();
    assert_eq!(squad.members.to_pairs(), read);
}

#[test]
fn a_proposal_persists_its_tally_and_its_voters() {
    let mut proposal = Proposal::blank();
    proposal.is_initialized = true;
    proposal.proposal_type = 4;
    proposal.execution_amount = 0x0102030405060708;
    proposal.title = String::from("pay");
    proposal.votes = vec![1, 2];
    proposal.votes_num = 2;
    proposal.has_voted = vec![addr(5), addr(4)];
    proposal.has_voted_num = 2;
    proposal.votes_labels = vec![String::from("yes"), String::from("no")];
    proposal.start_timestamp = 11;
    proposal.close_timestamp = -1;
    proposal.executed = true;
    proposal.proposal_index = 258;
    proposal.threshold_at_execute = 3;
    let mut dst: Vec<u8> = vec![0; PROPOSAL_TOTAL_BYTES];
    proposal.pack_into_slice(&mut dst).unwrap();
    assert_eq!(&dst[0..2], &[1, 4]);
    assert_eq!(&dst[2..10], &[8, 7, 6, 5, 4, 3, 2, 1]);
    assert_eq!(&dst[146..149], b"pay");
    assert_eq!(&dst[726..728], &[2, 2]);
    // the voters as the ledger's serializer writes a list of keys
    let reference = vec![Pubkey::new_from_array([5; 32]), Pubkey::new_from_array([4; 32])];
    let encoded = reference.try_to_vec().unwrap();
    assert_eq!(encoded.len(), 68);
    assert_eq!(&dst[728..796], &encoded[..]);
    assert_eq!(&dst[5532..5540], &[1, 0, 0, 0, 0, 0, 0, 0]);
    assert_eq!(&dst[5540..5548], &[2, 0, 0, 0, 0, 0, 0, 0]);
    assert_eq!(&dst[5548..5572], &[0; 24]);
    assert_eq!(&dst[5572..5575], b"yes");
    assert_eq!(&dst[5616..5618], b"no");
    assert_eq!(&dst[5792..5800], &11i64.to_le_bytes());
    assert_eq!(&dst[5800..5808], &[255; 8]);
    assert_eq!(&dst[5825..5828], &[3, 1, 0]);
    assert_eq!(&dst[5870..5874], &[2, 1, 0, 0]);
    let read = Proposal::unpack_unchecked(&dst).unwrap();
    assert_eq!(read.votes, vec![1, 2, 0, 0, 0]);
    assert_eq!(read.has_voted, vec![addr(5), addr(4)]);
    assert_eq!(read.votes_labels.len(), 5);
    assert_eq!(read.votes_labels[0], format!("yes{}", zeros(41)));
    assert_eq!(read.votes_labels[4], zeros(44));
    assert_eq!(read.title, format!("pay{}", zeros(33)));
    assert_eq!(read.close_timestamp, -1);
    assert_eq!(read.execution_amount, 0x0102030405060708);
    assert!(read.executed);
    assert_eq!(read.proposal_index, 258);
}

#[test]
fn a_receipt_persists_the_vote() {
    let mut receipt = VoteReceipt::blank();
    receipt.save_vote(&addr(3), 4, &addr(5), i64::MIN, u64::MAX);
    let mut dst: Vec<u8> = vec![0; VOTE_RECEIPT_TOTAL_BYTES];
    receipt.pack_into_slice(&mut dst).unwrap();
    assert_eq!(dst[0], 1);
    assert_eq!(&dst[1..33], &[3; 32]);
    assert_eq!(dst[33], 4);
    assert_eq!(&dst[34..66], &[5; 32]);
    assert_eq!(&dst[66..74], &i64::MIN.to_le_bytes());
    assert_eq!(&dst[74..82], &[255; 8]);
    assert_eq!(VoteReceipt::unpack_unchecked(&dst), Ok(receipt));
}

#[test]
fn tags_stand_for_modes_and_types() {
    assert_eq!(AllocationType::TeamCoordination.as_u8(), 1);
    assert_eq!(AllocationType::Multisig.as_u8(), 2);
    assert_eq!(AllocationType::from_u8(1), Some(AllocationType::TeamCoordination));
    assert_eq!(AllocationType::from_u8(2), Some(AllocationType::Multisig));
    assert_eq!(AllocationType::from_u8(0), None);
    assert_eq!(AllocationType::from_u8(3), None);
    let kinds = [
        ProposalType::Text,
        ProposalType::Support,
        ProposalType::Quorum,
        ProposalType::WithdrawSol,
        ProposalType::WithdrawSpl,
        ProposalType::AddMember,
        ProposalType::RemoveMember,
        ProposalType::MintMemberToken,
        ProposalType::Swap,
    ];
    for (tag, kind) in kinds.iter().enumerate() {
        assert_eq!(kind.as_u8(), tag as u8);
        assert_eq!(ProposalType::from_u8(tag as u8), Some(*kind));
    }
    assert_eq!(ProposalType::from_u8(9), None);
    assert_eq!(ProposalType::from_u8(255), None);
}

#[test]
fn lengths_are_spelled_least_significant_byte_first() {
    assert_eq!(transform_u32_to_array_of_u8(0x01020304), [4, 3, 2, 1]);
    assert_eq!(transform_u32_to_array_of_u8(196), [196, 0, 0, 0]);
    assert_eq!(count_from_le(&[4, 3, 2, 1]), 0x01020304);
    assert_eq!(count_from_le(&[196, 0, 0, 0, 9, 9]), 196);
}
