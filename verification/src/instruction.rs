//! The instructions that the program accepts, and their wire format.

use vstd::prelude::*;
use vstd::bytes::*;
use vstd::slice::*;
use vstd::utf8::*;
use crate::address::Address;
use crate::codec::{i64_from_le, i64_from_le_bytes, read_text};
use crate::error::SquadError;

verus! {

/// A member as a client names it: the member's address and the account
/// that holds the member's equity.
#[derive(Clone, Copy, Debug, PartialEq, Eq)]
pub struct IncomingMember {
    pub public_key: Address,
    pub equity_token_account: Address,
}

/// A list of members as a client names them.
#[derive(Clone, Debug, PartialEq, Eq)]
pub struct Members {
    pub list: Vec<IncomingMember>,
}

/// An instruction.
#[derive(Clone, Debug, PartialEq, Eq)]
pub enum SquadInstruction {
    /// Create a team-coordination squad.
    CreateSquad {
        allocation_type: u8,
        vote_support: u8,
        vote_quorum: u8,
        core_threshold: u8,
        squad_name: String,
        description: String,
        token: String,
        random_id: String,
    },
    /// Create a multisig.
    CreateMultisig {
        vote_quorum: u8,
        squad_name: String,
        description: String,
        random_id: String,
        members_num: u8,
    },
    /// Admit the first members of a draft.
    AddMembersToSquad { members_num: u8, allocation_table: Vec<u64> },
    /// Create a proposal.
    CreateProposalAccount {
        proposal_type: u8,
        votes_num: u8,
        title: String,
        description: String,
        link: String,
        vote_labels: Vec<String>,
        start_timestamp: i64,
        close_timestamp: i64,
        amount: u64,
        minimum_out: u64,
    },
    /// Vote in a team-coordination squad.
    CastVote { vote: u8 },
    /// Execute a proposal of a team-coordination squad.
    ExecuteProposal { random_id: String },
    /// Vote in a multisig.
    CastMultisigVote { vote: u8 },
    /// Execute a proposal of a multisig.
    ExecuteMultisigProposal { random_id: String },
}

/// An instruction as a mathematical value.
pub ghost enum InstructionView {
    CreateSquad {
        allocation_type: u8,
        vote_support: u8,
        vote_quorum: u8,
        core_threshold: u8,
        squad_name: Seq<char>,
        description: Seq<char>,
        token: Seq<char>,
        random_id: Seq<char>,
    },
    CreateMultisig {
        vote_quorum: u8,
        squad_name: Seq<char>,
        description: Seq<char>,
        random_id: Seq<char>,
        members_num: u8,
    },
    AddMembersToSquad { members_num: u8, allocation_table: Seq<u64> },
    CreateProposalAccount {
        proposal_type: u8,
        votes_num: u8,
        title: Seq<char>,
        description: Seq<char>,
        link: Seq<char>,
        vote_labels: Seq<Seq<char>>,
        start_timestamp: i64,
        close_timestamp: i64,
        amount: u64,
        minimum_out: u64,
    },
    CastVote { vote: u8 },
    ExecuteProposal { random_id: Seq<char> },
    CastMultisigVote { vote: u8 },
    ExecuteMultisigProposal { random_id: Seq<char> },
}

impl View for SquadInstruction {
    type V = InstructionView;

    open spec fn view(&self) -> InstructionView {
        match self {
            SquadInstruction::CreateSquad {
                allocation_type,
                vote_support,
                vote_quorum,
                core_threshold,
                squad_name,
                description,
                token,
                random_id,
            } => InstructionView::CreateSquad {
                allocation_type: *allocation_type,
                vote_support: *vote_support,
                vote_quorum: *vote_quorum,
                core_threshold: *core_threshold,
                squad_name: squad_name@,
                description: description@,
                token: token@,
                random_id: random_id@,
            },
            SquadInstruction::CreateMultisig {
                vote_quorum,
                squad_name,
                description,
                random_id,
                members_num,
            } => InstructionView::CreateMultisig {
                vote_quorum: *vote_quorum,
                squad_name: squad_name@,
                description: description@,
                random_id: random_id@,
                members_num: *members_num,
            },
            SquadInstruction::AddMembersToSquad {
                members_num,
                allocation_table,
            } => InstructionView::AddMembersToSquad {
                members_num: *members_num,
                allocation_table: allocation_table@,
            },
            SquadInstruction::CreateProposalAccount {
                proposal_type,
                votes_num,
                title,
                description,
                link,
                vote_labels,
                start_timestamp,
                close_timestamp,
                amount,
                minimum_out,
            } => InstructionView::CreateProposalAccount {
                proposal_type: *proposal_type,
                votes_num: *votes_num,
                title: title@,
                description: description@,
                link: link@,
                vote_labels: Seq::new(vote_labels@.len(), |i: int| vote_labels@[i]@),
                start_timestamp: *start_timestamp,
                close_timestamp: *close_timestamp,
                amount: *amount,
                minimum_out: *minimum_out,
            },
            SquadInstruction::CastVote { vote } => InstructionView::CastVote { vote: *vote },
            SquadInstruction::ExecuteProposal { random_id } => InstructionView::ExecuteProposal {
                random_id: random_id@,
            },
            SquadInstruction::CastMultisigVote { vote } => InstructionView::CastMultisigVote {
                vote: *vote,
            },
            SquadInstruction::ExecuteMultisigProposal {
                random_id,
            } => InstructionView::ExecuteMultisigProposal { random_id: random_id@ },
        }
    }
}

/// The bytes of label `i` in what follows the tag of a proposal's instruction.
pub open spec fn wire_label(rest: Seq<u8>, i: int) -> Seq<u8> {
    rest.subrange(582 + 44 * i, 626 + 44 * i)
}

/// The bytes of allocation `i` in what follows the tag of an admission.
pub open spec fn wire_allocation(rest: Seq<u8>, i: int) -> Seq<u8> {
    rest.subrange(9 + 8 * i, 17 + 8 * i)
}

/// The amount held at `from`, or 0 where the bytes end before `from + 8`.
pub open spec fn wire_amount(rest: Seq<u8>, from: int) -> u64 {
    if rest.len() >= from + 8 {
        spec_u64_from_le_bytes(rest.subrange(from, from + 8))
    } else {
        0
    }
}

/// The identifier of the wrapped-native account: the first 16 bytes, or
/// sixteen zero digits where there are fewer.
pub open spec fn wire_random_id(rest: Seq<u8>) -> Option<Seq<char>> {
    if rest.len() >= 16 {
        if valid_utf8(rest.subrange(0, 16)) {
            Some(decode_utf8(rest.subrange(0, 16)))
        } else {
            None
        }
    } else {
        Some("0000000000000000"@)
    }
}

/// The instruction that bytes spell, if they spell one: a tag, then the
/// fields of the instruction at fixed places. Texts are well-formed UTF-8
/// of their full width.
pub open spec fn parsed(input: Seq<u8>) -> Option<InstructionView> {
    if input.len() == 0 {
        None
    } else {
        let tag = input[0];
        let rest = input.subrange(1, input.len() as int);
        if tag == 0 {
            if rest.len() >= 80 && valid_utf8(rest.subrange(4, 28)) && valid_utf8(rest.subrange(28, 64))
                && valid_utf8(rest.subrange(64, 70)) && valid_utf8(rest.subrange(70, 80)) {
                Some(
                    InstructionView::CreateSquad {
                        allocation_type: rest[0],
                        vote_support: rest[1],
                        vote_quorum: rest[2],
                        core_threshold: rest[3],
                        squad_name: decode_utf8(rest.subrange(4, 28)),
                        description: decode_utf8(rest.subrange(28, 64)),
                        token: decode_utf8(rest.subrange(64, 70)),
                        random_id: decode_utf8(rest.subrange(70, 80)),
                    },
                )
            } else {
                None
            }
        } else if tag == 1 {
            if rest.len() >= 72 && valid_utf8(rest.subrange(1, 25)) && valid_utf8(rest.subrange(25, 61))
                && valid_utf8(rest.subrange(61, 71)) {
                Some(
                    InstructionView::CreateMultisig {
                        vote_quorum: rest[0],
                        squad_name: decode_utf8(rest.subrange(1, 25)),
                        description: decode_utf8(rest.subrange(25, 61)),
                        random_id: decode_utf8(rest.subrange(61, 71)),
                        members_num: rest[71],
                    },
                )
            } else {
                None
            }
        } else if tag == 2 {
            if rest.len() >= 818 && valid_utf8(rest.subrange(1, 37)) && valid_utf8(
                rest.subrange(37, 533),
            ) && valid_utf8(rest.subrange(533, 581)) && (forall|i: int|
                0 <= i < 5 ==> valid_utf8(#[trigger] wire_label(rest, i))) {
                Some(
                    InstructionView::CreateProposalAccount {
                        proposal_type: rest[0],
                        votes_num: rest[581],
                        title: decode_utf8(rest.subrange(1, 37)),
                        description: decode_utf8(rest.subrange(37, 533)),
                        link: decode_utf8(rest.subrange(533, 581)),
                        vote_labels: Seq::new(5, |i: int| decode_utf8(wire_label(rest, i))),
                        start_timestamp: i64_from_le(rest.subrange(802, 810)),
                        close_timestamp: i64_from_le(rest.subrange(810, 818)),
                        amount: wire_amount(rest, 818),
                        minimum_out: wire_amount(rest, 826),
                    },
                )
            } else {
                None
            }
        } else if tag == 3 {
            if rest.len() >= 1 {
                Some(InstructionView::CastVote { vote: rest[0] })
            } else {
                None
            }
        } else if tag == 4 {
            if rest.len() >= 1 {
                Some(InstructionView::CastMultisigVote { vote: rest[0] })
            } else {
                None
            }
        } else if tag == 5 {
            match wire_random_id(rest) {
                Some(random_id) => Some(InstructionView::ExecuteProposal { random_id }),
                None => None,
            }
        } else if tag == 6 {
            match wire_random_id(rest) {
                Some(random_id) => Some(InstructionView::ExecuteMultisigProposal { random_id }),
                None => None,
            }
        } else if tag == 7 {
            if rest.len() >= 1 && rest.len() >= 9 + 8 * rest[0] {
                Some(
                    InstructionView::AddMembersToSquad {
                        members_num: rest[0],
                        allocation_table: Seq::new(
                            rest[0] as nat,
                            |i: int| spec_u64_from_le_bytes(wire_allocation(rest, i)),
                        ),
                    },
                )
            } else {
                None
            }
        } else {
            None
        }
    }
}

impl SquadInstruction {
    /// Reads an instruction from its wire format. Bytes that spell none are
    /// refused as an invalid instruction.
    pub fn unpack(input: &[u8]) -> (r: Result<SquadInstruction, SquadError>)
        ensures
            match parsed(input@) {
                Some(v) => r is Ok && r.unwrap()@ == v,
                None => r == Err::<SquadInstruction, SquadError>(SquadError::InvalidInstruction),
            },
    {
        if input.len() == 0 {
            return Err(SquadError::InvalidInstruction);
        }
        let tag = input[0];
        let rest = slice_subrange(input, 1, input.len());
        if tag == 0 {
            if rest.len() < 80 {
                return Err(SquadError::InvalidInstruction);
            }
            let squad_name = match SquadInstruction::unpack_squad_name(slice_subrange(rest, 4, 28)) {
                Ok(value) => value,
                Err(e) => {
                    return Err(e);
                },
            };
            let description = match SquadInstruction::unpack_squad_description(
                slice_subrange(rest, 28, 64),
            ) {
                Ok(value) => value,
                Err(e) => {
                    return Err(e);
                },
            };
            let token = match SquadInstruction::unpack_squad_token(slice_subrange(rest, 64, 70)) {
                Ok(value) => value,
                Err(e) => {
                    return Err(e);
                },
            };
            let random_id = match SquadInstruction::unpack_squad_random_id(slice_subrange(rest, 70, 80)) {
                Ok(value) => value,
                Err(e) => {
                    return Err(e);
                },
            };
            Ok(
                SquadInstruction::CreateSquad {
                    allocation_type: rest[0],
                    vote_support: rest[1],
                    vote_quorum: rest[2],
                    core_threshold: rest[3],
                    squad_name,
                    description,
                    token,
                    random_id,
                },
            )
        } else if tag == 1 {
            if rest.len() < 72 {
                return Err(SquadError::InvalidInstruction);
            }
            let squad_name = match SquadInstruction::unpack_squad_name(slice_subrange(rest, 1, 25)) {
                Ok(value) => value,
                Err(e) => {
                    return Err(e);
                },
            };
            let description = match SquadInstruction::unpack_squad_description(
                slice_subrange(rest, 25, 61),
            ) {
                Ok(value) => value,
                Err(e) => {
                    return Err(e);
                },
            };
            let random_id = match SquadInstruction::unpack_squad_random_id(slice_subrange(rest, 61, 71)) {
                Ok(value) => value,
                Err(e) => {
                    return Err(e);
                },
            };
            Ok(
                SquadInstruction::CreateMultisig {
                    vote_quorum: rest[0],
                    squad_name,
                    description,
                    random_id,
                    members_num: rest[71],
                },
            )
        } else if tag == 2 {
            if rest.len() < 818 {
                return Err(SquadError::InvalidInstruction);
            }
            let title = match SquadInstruction::unpack_proposal_title(slice_subrange(rest, 1, 37)) {
                Ok(value) => value,
                Err(e) => {
                    return Err(e);
                },
            };
            let description = match SquadInstruction::unpack_proposal_description(
                slice_subrange(rest, 37, 533),
            ) {
                Ok(value) => value,
                Err(e) => {
                    return Err(e);
                },
            };
            let link = match SquadInstruction::unpack_proposal_link(slice_subrange(rest, 533, 581)) {
                Ok(value) => value,
                Err(e) => {
                    return Err(e);
                },
            };
            let labels = slice_subrange(rest, 582, 802);
            assert forall|i: int| 0 <= i < 5 implies #[trigger] labels@.subrange(44 * i, 44 * i + 44)
                == wire_label(rest@, i) by {
                assert(labels@.subrange(44 * i, 44 * i + 44) =~= wire_label(rest@, i));
            }
            let vote_labels = match SquadInstruction::unpack_proposal_labels(labels) {
                Ok(value) => value,
                Err(e) => {
                    return Err(e);
                },
            };
            assert forall|i: int| 0 <= i < 5 implies valid_utf8(#[trigger] wire_label(rest@, i)) by {
                assert(labels@.subrange(44 * i, 44 * i + 44) =~= wire_label(rest@, i));
            }
            assert(Seq::new(vote_labels@.len(), |i: int| vote_labels@[i]@) =~= Seq::new(
                5,
                |i: int| decode_utf8(wire_label(rest@, i)),
            ));
            let start_timestamp = SquadInstruction::unpack_proposal_start(
                slice_subrange(rest, 802, 810),
            );
            let close_timestamp = SquadInstruction::unpack_proposal_close(
                slice_subrange(rest, 810, 818),
            );
            Ok(
                SquadInstruction::CreateProposalAccount {
                    proposal_type: rest[0],
                    votes_num: rest[581],
                    title,
                    description,
                    link,
                    vote_labels,
                    start_timestamp,
                    close_timestamp,
                    amount: SquadInstruction::unpack_proposal_amount_in(rest),
                    minimum_out: SquadInstruction::unpack_proposal_amount_out(rest),
                },
            )
        } else if tag == 3 {
            if rest.len() < 1 {
                return Err(SquadError::InvalidInstruction);
            }
            Ok(SquadInstruction::CastVote { vote: rest[0] })
        } else if tag == 4 {
            if rest.len() < 1 {
                return Err(SquadError::InvalidInstruction);
            }
            Ok(SquadInstruction::CastMultisigVote { vote: rest[0] })
        } else if tag == 5 {
            let random_id = match SquadInstruction::unpack_wsol_random_id(rest) {
                Ok(value) => value,
                Err(e) => {
                    return Err(e);
                },
            };
            Ok(SquadInstruction::ExecuteProposal { random_id })
        } else if tag == 6 {
            let random_id = match SquadInstruction::unpack_wsol_random_id(rest) {
                Ok(value) => value,
                Err(e) => {
                    return Err(e);
                },
            };
            Ok(SquadInstruction::ExecuteMultisigProposal { random_id })
        } else if tag == 7 {
            if rest.len() < 1 {
                return Err(SquadError::InvalidInstruction);
            }
            let allocation_table = match SquadInstruction::unpack_add_members_allocation_table(rest) {
                Ok(value) => value,
                Err(e) => {
                    return Err(e);
                },
            };
            Ok(SquadInstruction::AddMembersToSquad { members_num: rest[0], allocation_table })
        } else {
            Err(SquadError::InvalidInstruction)
        }
    }

    /// The text that the whole of `input` spells.
    fn unpack_text(input: &[u8]) -> (r: Result<String, SquadError>)
        ensures
            r is Ok <==> valid_utf8(input@),
            r is Ok ==> r.unwrap()@ == decode_utf8(input@),
            r is Err ==> r == Err::<String, SquadError>(SquadError::InvalidInstruction),
    {
        assert(input@.subrange(0, input@.len() as int) == input@);
        match read_text(input, 0, input.len()) {
            Some(text) => Ok(text),
            None => Err(SquadError::InvalidInstruction),
        }
    }

    fn unpack_squad_name(input: &[u8]) -> (r: Result<String, SquadError>)
        ensures
            r is Ok <==> valid_utf8(input@),
            r is Ok ==> r.unwrap()@ == decode_utf8(input@),
            r is Err ==> r == Err::<String, SquadError>(SquadError::InvalidInstruction),
    {
        SquadInstruction::unpack_text(input)
    }

    fn unpack_squad_description(input: &[u8]) -> (r: Result<String, SquadError>)
        ensures
            r is Ok <==> valid_utf8(input@),
            r is Ok ==> r.unwrap()@ == decode_utf8(input@),
            r is Err ==> r == Err::<String, SquadError>(SquadError::InvalidInstruction),
    {
        SquadInstruction::unpack_text(input)
    }

    fn unpack_squad_token(input: &[u8]) -> (r: Result<String, SquadError>)
        ensures
            r is Ok <==> valid_utf8(input@),
            r is Ok ==> r.unwrap()@ == decode_utf8(input@),
            r is Err ==> r == Err::<String, SquadError>(SquadError::InvalidInstruction),
    {
        SquadInstruction::unpack_text(input)
    }

    fn unpack_squad_random_id(input: &[u8]) -> (r: Result<String, SquadError>)
        ensures
            r is Ok <==> valid_utf8(input@),
            r is Ok ==> r.unwrap()@ == decode_utf8(input@),
            r is Err ==> r == Err::<String, SquadError>(SquadError::InvalidInstruction),
    {
        SquadInstruction::unpack_text(input)
    }

    fn unpack_wsol_random_id(input: &[u8]) -> (r: Result<String, SquadError>)
        ensures
            match wire_random_id(input@) {
                Some(id) => r is Ok && r.unwrap()@ == id,
                None => r == Err::<String, SquadError>(SquadError::InvalidInstruction),
            },
    {
        if input.len() >= 16 {
            SquadInstruction::unpack_text(slice_subrange(input, 0, 16))
        } else {
            Ok("0000000000000000".to_owned())
        }
    }

    fn unpack_proposal_title(input: &[u8]) -> (r: Result<String, SquadError>)
        ensures
            r is Ok <==> valid_utf8(input@),
            r is Ok ==> r.unwrap()@ == decode_utf8(input@),
            r is Err ==> r == Err::<String, SquadError>(SquadError::InvalidInstruction),
    {
        SquadInstruction::unpack_text(input)
    }

    fn unpack_proposal_description(input: &[u8]) -> (r: Result<String, SquadError>)
        ensures
            r is Ok <==> valid_utf8(input@),
            r is Ok ==> r.unwrap()@ == decode_utf8(input@),
            r is Err ==> r == Err::<String, SquadError>(SquadError::InvalidInstruction),
    {
        SquadInstruction::unpack_text(input)
    }

    fn unpack_proposal_link(input: &[u8]) -> (r: Result<String, SquadError>)
        ensures
            r is Ok <==> valid_utf8(input@),
            r is Ok ==> r.unwrap()@ == decode_utf8(input@),
            r is Err ==> r == Err::<String, SquadError>(SquadError::InvalidInstruction),
    {
        SquadInstruction::unpack_text(input)
    }

    /// The five labels, each of 44 bytes.
    fn unpack_proposal_labels(input: &[u8]) -> (r: Result<Vec<String>, SquadError>)
        requires
            input@.len() == 220,
        ensures
            r is Ok <==> forall|i: int|
                0 <= i < 5 ==> valid_utf8(#[trigger] input@.subrange(44 * i, 44 * i + 44)),
            r is Ok ==> r.unwrap()@.len() == 5 && forall|i: int|
                0 <= i < 5 ==> (#[trigger] r.unwrap()@[i])@ == decode_utf8(
                    input@.subrange(44 * i, 44 * i + 44),
                ),
            r is Err ==> r == Err::<Vec<String>, SquadError>(SquadError::InvalidInstruction),
    {
        let mut labels: Vec<String> = Vec::new();
        let mut i: usize = 0;
        while i < 5
            invariant
                i <= 5,
                input@.len() == 220,
                labels@.len() == i,
                forall|j: int|
                    0 <= j < i ==> valid_utf8(#[trigger] input@.subrange(44 * j, 44 * j + 44)),
                forall|j: int|
                    0 <= j < i ==> (#[trigger] labels@[j])@ == decode_utf8(
                        input@.subrange(44 * j, 44 * j + 44),
                    ),
            decreases 5 - i,
        {
            match read_text(input, 44 * i, 44 * i + 44) {
                Some(label) => {
                    labels.push(label);
                },
                None => {
                    assert(!valid_utf8(input@.subrange(44 * i, 44 * i + 44)));
                    return Err(SquadError::InvalidInstruction);
                },
            }
            i += 1;
        }
        Ok(labels)
    }

    fn unpack_proposal_start(input: &[u8]) -> (t: i64)
        requires
            input@.len() == 8,
        ensures
            t == i64_from_le(input@),
    {
        i64_from_le_bytes(input)
    }

    fn unpack_proposal_close(input: &[u8]) -> (t: i64)
        requires
            input@.len() == 8,
        ensures
            t == i64_from_le(input@),
    {
        i64_from_le_bytes(input)
    }

    fn unpack_proposal_amount_in(input: &[u8]) -> (amount: u64)
        ensures
            amount == wire_amount(input@, 818),
    {
        if input.len() >= 826 {
            u64_from_le_bytes(slice_subrange(input, 818, 826))
        } else {
            0
        }
    }

    fn unpack_proposal_amount_out(input: &[u8]) -> (amount: u64)
        ensures
            amount == wire_amount(input@, 826),
    {
        if input.len() >= 834 {
            u64_from_le_bytes(slice_subrange(input, 826, 834))
        } else {
            0
        }
    }

    /// The allocations of the members to admit: the count in the first
    /// byte, then, from the tenth byte on, eight bytes for each member,
    /// however many the count names.
    fn unpack_add_members_allocation_table(input: &[u8]) -> (r: Result<Vec<u64>, SquadError>)
        requires
            input@.len() >= 1,
        ensures
            r is Ok <==> input@.len() >= 9 + 8 * input@[0],
            r is Ok ==> r.unwrap()@ == Seq::new(
                input@[0] as nat,
                |i: int| spec_u64_from_le_bytes(wire_allocation(input@, i)),
            ),
            r is Err ==> r == Err::<Vec<u64>, SquadError>(SquadError::InvalidInstruction),
    {
        let members_num = input[0];
        let slice_size: usize = (members_num as usize) * 8;
        if input.len() < slice_size + 9 {
            return Err(SquadError::InvalidInstruction);
        }
        let mut allocation_table: Vec<u64> = Vec::new();
        let mut i: usize = 0;
        while i < members_num as usize
            invariant
                i <= members_num,
                input@.len() >= 9 + 8 * members_num,
                allocation_table@.len() == i,
                forall|j: int|
                    0 <= j < i ==> allocation_table@[j] == spec_u64_from_le_bytes(
                        wire_allocation(input@, j),
                    ),
            decreases members_num - i,
        {
            allocation_table.push(u64_from_le_bytes(slice_subrange(input, 9 + 8 * i, 17 + 8 * i)));
            i += 1;
        }
        assert(allocation_table@ =~= Seq::new(
            input@[0] as nat,
            |i: int| spec_u64_from_le_bytes(wire_allocation(input@, i)),
        ));
        Ok(allocation_table)
    }
}

} // verus!
