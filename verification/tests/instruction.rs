use squads::error::{ErrorKind, SquadError};
use squads::instruction::SquadInstruction;

fn padded(text: &str, width: usize) -> Vec<u8> {
    let mut bytes = text.as_bytes().to_vec();
    bytes.resize(width, 0);
    bytes
}

fn text(s: &str, width: usize) -> String {
    String::from_utf8(padded(s, width)).unwrap()
}

fn proposal_bytes() -> Vec<u8> {
    let mut data = vec![2u8, 4];
    data.extend(padded("title", 36));
    data.extend(padded("description", 496));
    data.extend(padded("link", 48));
    data.push(2);
    for label in ["yes", "no", "", "", ""] {
        data.extend(padded(label, 44));
    }
    data.extend(1_700_000_000i64.to_le_bytes());
    data.extend((-2i64).to_le_bytes());
    data
}

#[test]
fn squad_create_instruction() {}

#[test]
fn error_kinds_follow_the_cause() {
    assert_eq!(SquadError::DuplicateVote.kind(), ErrorKind::StateConflict);
    assert_eq!(SquadError::AlreadyExecuted.kind(), ErrorKind::StateConflict);
    assert_eq!(SquadError::AlreadyInitialized.kind(), ErrorKind::StateConflict);
    assert_eq!(SquadError::SquadAlreadyExists.kind(), ErrorKind::StateConflict);
    assert_eq!(SquadError::AlreadyMember.kind(), ErrorKind::StateConflict);
    assert_eq!(SquadError::DraftSquad.kind(), ErrorKind::StateConflict);
    assert_eq!(SquadError::MissingSignature.kind(), ErrorKind::Authorization);
    assert_eq!(SquadError::NotMember.kind(), ErrorKind::Authorization);
    assert_eq!(SquadError::NotAdmin.kind(), ErrorKind::Authorization);
    assert_eq!(SquadError::AddressMismatch.kind(), ErrorKind::AddressMismatch);
    assert_eq!(SquadError::WrongProgram.kind(), ErrorKind::AddressMismatch);
    assert_eq!(SquadError::WrongOwner.kind(), ErrorKind::AddressMismatch);
    assert_eq!(SquadError::Fenced.kind(), ErrorKind::TemporalViolation);
    assert_eq!(SquadError::ThresholdNotMet.kind(), ErrorKind::ThresholdNotMet);
    assert_eq!(SquadError::Rejected.kind(), ErrorKind::ThresholdNotMet);
    assert_eq!(SquadError::NotRentExempt.kind(), ErrorKind::ArgumentOutOfRange);
    assert_eq!(SquadError::WrongMode.kind(), ErrorKind::TypeMismatch);
    assert_eq!(SquadError::NotExecutable.kind(), ErrorKind::TypeMismatch);
    assert_eq!(SquadError::UnknownProposalType.kind(), ErrorKind::TypeMismatch);
    assert_eq!(SquadError::OutOfRange.kind(), ErrorKind::ArgumentOutOfRange);
    assert_eq!(SquadError::CapacityExceeded.kind(), ErrorKind::ArgumentOutOfRange);
    assert_eq!(SquadError::InvalidInstruction.kind(), ErrorKind::ArgumentOutOfRange);
    assert_eq!(SquadError::MalformedRecord.kind(), ErrorKind::ArgumentOutOfRange);
    assert_eq!(SquadError::MissingAccount.kind(), ErrorKind::ArgumentOutOfRange);
    assert_eq!(SquadError::UnknownMember.kind(), ErrorKind::ArgumentOutOfRange);
    assert_eq!(SquadError::Overflow.kind(), ErrorKind::ArgumentOutOfRange);
}

#[test]
fn create_squad_is_read_from_its_wire_format() {
    let mut data = vec![0u8, 1, 60, 40, 5];
    data.extend(padded("My Squad", 24));
    data.extend(padded("About it", 36));
    data.extend(padded("TKN", 6));
    data.extend(padded("0123456789", 10));
    assert_eq!(data.len(), 81);
    let expected = SquadInstruction::CreateSquad {
        allocation_type: 1,
        vote_support: 60,
        vote_quorum: 40,
        core_threshold: 5,
        squad_name: text("My Squad", 24),
        description: text("About it", 36),
        token: text("TKN", 6),
        random_id: text("0123456789", 10),
    };
    assert_eq!(SquadInstruction::unpack(&data), Ok(expected.clone()));
    // what follows the fields is not read
    data.push(99);
    assert_eq!(SquadInstruction::unpack(&data), Ok(expected));
    assert_eq!(SquadInstruction::unpack(&data[..80]), Err(SquadError::InvalidInstruction));
    data[5] = 0xff;
    assert_eq!(SquadInstruction::unpack(&data), Err(SquadError::InvalidInstruction));
}

#[test]
fn create_multisig_is_read_from_its_wire_format() {
    let mut data = vec![1u8, 2];
    data.extend(padded("Signers", 24));
    data.extend(padded("Three of us", 36));
    data.extend(padded("abcdefghij", 10));
    data.push(3);
    assert_eq!(
        SquadInstruction::unpack(&data),
        Ok(SquadInstruction::CreateMultisig {
            vote_quorum: 2,
            squad_name: text("Signers", 24),
            description: text("Three of us", 36),
            random_id: text("abcdefghij", 10),
            members_num: 3,
        })
    );
    assert_eq!(SquadInstruction::unpack(&data[..72]), Err(SquadError::InvalidInstruction));
}

#[test]
fn create_proposal_is_read_from_its_wire_format() {
    let mut data = proposal_bytes();
    assert_eq!(data.len(), 819);
    let mut expected = SquadInstruction::CreateProposalAccount {
        proposal_type: 4,
        votes_num: 2,
        title: text("title", 36),
        description: text("description", 496),
        link: text("link", 48),
        vote_labels: vec![text("yes", 44), text("no", 44), text("", 44), text("", 44), text("", 44)],
        start_timestamp: 1_700_000_000,
        close_timestamp: -2,
        amount: 0,
        minimum_out: 0,
    };
    assert_eq!(SquadInstruction::unpack(&data), Ok(expected.clone()));
    // an amount that is cut short counts as none
    data.extend([1, 2, 3, 4, 5, 6, 7]);
    assert_eq!(SquadInstruction::unpack(&data), Ok(expected.clone()));
    data.push(8);
    if let SquadInstruction::CreateProposalAccount { amount, .. } = &mut expected {
        *amount = 0x0807060504030201;
    }
    assert_eq!(SquadInstruction::unpack(&data), Ok(expected.clone()));
    data.extend(990u64.to_le_bytes());
    if let SquadInstruction::CreateProposalAccount { minimum_out, .. } = &mut expected {
        *minimum_out = 990;
    }
    assert_eq!(SquadInstruction::unpack(&data), Ok(expected));
    assert_eq!(SquadInstruction::unpack(&data[..818]), Err(SquadError::InvalidInstruction));
    data[1 + 582 + 44 * 3] = 0xc0;
    assert_eq!(SquadInstruction::unpack(&data), Err(SquadError::InvalidInstruction));
}

#[test]
fn votes_and_executions_are_read_from_their_wire_format() {
    assert_eq!(SquadInstruction::unpack(&[3, 1]), Ok(SquadInstruction::CastVote { vote: 1 }));
    assert_eq!(SquadInstruction::unpack(&[3, 4, 9]), Ok(SquadInstruction::CastVote { vote: 4 }));
    assert_eq!(
        SquadInstruction::unpack(&[4, 0]),
        Ok(SquadInstruction::CastMultisigVote { vote: 0 })
    );
    assert_eq!(SquadInstruction::unpack(&[3]), Err(SquadError::InvalidInstruction));
    assert_eq!(SquadInstruction::unpack(&[4]), Err(SquadError::InvalidInstruction));
    let zeros = String::from("0000000000000000");
    assert_eq!(
        SquadInstruction::unpack(&[5]),
        Ok(SquadInstruction::ExecuteProposal { random_id: zeros.clone() })
    );
    assert_eq!(
        SquadInstruction::unpack(&[6, 65, 66, 67]),
        Ok(SquadInstruction::ExecuteMultisigProposal { random_id: zeros })
    );
    let mut data = vec![5u8];
    data.extend(b"abcdefghijklmnopqrstuvwxyz");
    assert_eq!(
        SquadInstruction::unpack(&data),
        Ok(SquadInstruction::ExecuteProposal { random_id: String::from("abcdefghijklmnop") })
    );
    data[0] = 6;
    assert_eq!(
        SquadInstruction::unpack(&data),
        Ok(SquadInstruction::ExecuteMultisigProposal {
            random_id: String::from("abcdefghijklmnop")
        })
    );
    data[3] = 0xff;
    assert_eq!(SquadInstruction::unpack(&data), Err(SquadError::InvalidInstruction));
}

#[test]
fn admissions_are_read_from_their_wire_format() {
    let mut data = vec![7u8, 2, 0, 0, 0, 0, 0, 0, 0, 0];
    data.extend(1000u64.to_le_bytes());
    data.extend(u64::MAX.to_le_bytes());
    assert_eq!(
        SquadInstruction::unpack(&data),
        Ok(SquadInstruction::AddMembersToSquad {
            members_num: 2,
            allocation_table: vec![1000, u64::MAX],
        })
    );
    assert_eq!(SquadInstruction::unpack(&data[..25]), Err(SquadError::InvalidInstruction));
    assert_eq!(
        SquadInstruction::unpack(&[7, 0, 0, 0, 0, 0, 0, 0, 0, 0]),
        Ok(SquadInstruction::AddMembersToSquad { members_num: 0, allocation_table: vec![] })
    );
    assert_eq!(SquadInstruction::unpack(&[7, 0]), Err(SquadError::InvalidInstruction));
    assert_eq!(SquadInstruction::unpack(&[7]), Err(SquadError::InvalidInstruction));
    // a table for a full roster, and for as many as the count can name
    for count in [31u8, 32, 150, 255] {
        let n = count as usize;
        let mut data = vec![7u8, count, 9, 9, 9, 9, 9, 9, 9, 9];
        for i in 0..n {
            data.extend((1000 + i as u64).to_le_bytes());
        }
        assert_eq!(data.len(), 10 + 8 * n);
        let expected: Vec<u64> = (0..n).map(|i| 1000 + i as u64).collect();
        assert_eq!(
            SquadInstruction::unpack(&data),
            Ok(SquadInstruction::AddMembersToSquad {
                members_num: count,
                allocation_table: expected.clone(),
            })
        );
        // what follows the table is not read
        data.push(1);
        assert_eq!(
            SquadInstruction::unpack(&data),
            Ok(SquadInstruction::AddMembersToSquad {
                members_num: count,
                allocation_table: expected,
            })
        );
        // a table that is cut short
        assert_eq!(
            SquadInstruction::unpack(&data[..9 + 8 * n]),
            Err(SquadError::InvalidInstruction)
        );
    }
}

#[test]
fn bytes_that_name_no_instruction_are_refused() {
    assert_eq!(SquadInstruction::unpack(&[]), Err(SquadError::InvalidInstruction));
    assert_eq!(SquadInstruction::unpack(&[8]), Err(SquadError::InvalidInstruction));
    assert_eq!(SquadInstruction::unpack(&[8, 0, 0]), Err(SquadError::InvalidInstruction));
    assert_eq!(SquadInstruction::unpack(&[255, 1]), Err(SquadError::InvalidInstruction));
    assert_eq!(SquadInstruction::unpack(&[0]), Err(SquadError::InvalidInstruction));
}
