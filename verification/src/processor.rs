//! The processors: one for each instruction. A processor reads the accounts
//! as they stand, decides, and gives back the records to persist and the
//! actions that the ledger is to perform, or the reason why it refuses.

use vstd::prelude::*;
use crate::account::{AccountSnapshot, Action, Environment};
use crate::address::{program_address, Address};
use crate::error::SquadError;
use crate::instruction::{parsed, InstructionView, SquadInstruction};
use crate::processor::process_add_members_to_squad::{add_members_result, process_add_members_to_squad};
use crate::processor::process_cast_multisig_vote::{cast_multisig_vote_result, process_cast_multisig_vote};
use crate::processor::process_cast_vote::{cast_vote_result, process_cast_vote};
use crate::processor::process_create_multisig::{create_multisig_result, process_create_multisig};
use crate::processor::process_create_proposal::{create_proposal_result, process_create_proposal};
use crate::processor::process_create_squad::{create_squad_result, process_create_squad};
use crate::processor::process_execute_multisig_proposal::process_execute_multisig_proposal;
use crate::processor::process_execute_proposal::{execution_result, process_execute_proposal};
use crate::state::proposal::{texts_view, Proposal};
use crate::state::squad::{Squad, MULTISIG, TEAM_COORDINATION};
use crate::state::vote::VoteReceipt;

pub mod process_add_members_to_squad;
pub mod process_cast_multisig_vote;
pub mod process_cast_vote;
pub mod process_create_multisig;
pub mod process_create_proposal;
pub mod process_create_squad;
pub mod process_execute_multisig_proposal;
pub mod process_execute_proposal;
pub mod process_execute_swap;

verus! {

/// What an instruction comes to: actions for the ledger to perform in
/// order, and then the records to persist, all of it or nothing.
#[derive(Clone, Debug, PartialEq, Eq)]
pub struct Outcome {
    pub actions: Vec<Action>,
    /// The squad to persist in the squad's account.
    pub squad: Option<Squad>,
    /// The proposal to persist in the proposal's account.
    pub proposal: Option<Proposal>,
    /// The receipt to persist in the voter's receipt account.
    pub receipt: Option<VoteReceipt>,
    /// The instruction to invoke where the actions ask for the swap.
    pub swap: Option<Instruction>,
}

/// How an instruction refers to an account.
#[derive(Clone, Copy, Debug, PartialEq, Eq)]
pub struct AccountMeta {
    pub pubkey: Address,
    pub is_signer: bool,
    pub is_writable: bool,
}

/// An instruction to another program.
#[derive(Clone, Debug, PartialEq, Eq)]
pub struct Instruction {
    pub program_id: Address,
    pub accounts: Vec<AccountMeta>,
    pub data: Vec<u8>,
}

/// Whether `key` is the address that the ledger derives from the seeds.
pub open spec fn address_is(seeds: Seq<Seq<u8>>, program_id: Seq<u8>, key: Seq<u8>) -> bool {
    program_address(seeds, program_id) is Some && program_address(seeds, program_id).unwrap().0
        == key
}

/// The bump seed of the address that the ledger derives from the seeds.
pub open spec fn bump_of(seeds: Seq<Seq<u8>>, program_id: Seq<u8>) -> u8 {
    program_address(seeds, program_id).unwrap().1
}

/// The bump seed of a derived address, where the address is `key`.
pub fn bump_if_matches(found: Option<(Address, u8)>, key: &Address) -> (r: Option<u8>)
    ensures
        forall|seeds: Seq<Seq<u8>>, program_id: Seq<u8>| #[trigger]
            crate::derived(found, seeds, program_id) ==> (r is Some <==> address_is(
                seeds,
                program_id,
                key@,
            )) && (r is Some ==> r.unwrap() == bump_of(seeds, program_id)),
{
    match found {
        Some((a, bump)) => if a.same_as(key) {
            Some(bump)
        } else {
            None
        },
        None => None,
    }
}

/// What an instruction comes to: bytes that spell no instruction are
/// refused, and any other bytes come to what the processor of their
/// instruction gives.
pub open spec fn process_result(
    program_id: Address,
    accounts: Seq<AccountSnapshot>,
    instruction_data: Seq<u8>,
    env: Environment,
    r: Result<Outcome, SquadError>,
) -> bool {
    match parsed(instruction_data) {
        None => r == Err::<Outcome, SquadError>(SquadError::InvalidInstruction),
        Some(
            InstructionView::CreateSquad {
                allocation_type,
                vote_support,
                vote_quorum,
                core_threshold,
                squad_name,
                description,
                token,
                random_id,
            },
        ) => create_squad_result(
            accounts,
            allocation_type,
            vote_support,
            vote_quorum,
            core_threshold,
            squad_name,
            description,
            token,
            random_id,
            program_id,
            env,
            r,
        ),
        Some(
            InstructionView::CreateMultisig {
                vote_quorum,
                squad_name,
                description,
                random_id,
                members_num,
            },
        ) => create_multisig_result(
            accounts,
            vote_quorum,
            squad_name,
            description,
            random_id,
            members_num,
            program_id,
            env,
            r,
        ),
        Some(
            InstructionView::AddMembersToSquad { members_num, allocation_table },
        ) => add_members_result(accounts, members_num, allocation_table, program_id, env, r),
        Some(
            InstructionView::CreateProposalAccount {
                proposal_type,
                votes_num,
                title,
                description,
                link,
                vote_labels,
                start_timestamp,
                close_timestamp,
                amount,
                minimum_out,
            },
        ) => create_proposal_result(
            accounts,
            proposal_type,
            votes_num,
            title,
            description,
            link,
            vote_labels,
            start_timestamp,
            close_timestamp,
            amount,
            minimum_out,
            program_id,
            env,
            r,
        ),
        Some(InstructionView::CastVote { vote }) => cast_vote_result(
            accounts,
            program_id,
            vote,
            env,
            r,
        ),
        Some(InstructionView::ExecuteProposal { random_id }) => execution_result(
            accounts,
            random_id,
            program_id,
            env,
            TEAM_COORDINATION,
            r,
        ),
        Some(InstructionView::CastMultisigVote { vote }) => cast_multisig_vote_result(
            accounts,
            program_id,
            vote,
            env,
            r,
        ),
        Some(InstructionView::ExecuteMultisigProposal { random_id }) => execution_result(
            accounts,
            random_id,
            program_id,
            env,
            MULTISIG,
            r,
        ),
    }
}

/// Processes an instruction: reads it from its wire format and hands it to
/// its processor.
pub fn process(
    program_id: &Address,
    accounts: &[AccountSnapshot],
    instruction_data: &[u8],
    env: &Environment,
) -> (r: Result<Outcome, SquadError>)
    ensures
        process_result(*program_id, accounts@, instruction_data@, *env, r),
{
    let instruction = match SquadInstruction::unpack(instruction_data) {
        Ok(instruction) => instruction,
        Err(e) => {
            return Err(e);
        },
    };
    match instruction {
        SquadInstruction::CreateSquad {
            allocation_type,
            vote_support,
            vote_quorum,
            core_threshold,
            squad_name,
            description,
            token,
            random_id,
        } => process_create_squad(
            accounts,
            allocation_type,
            vote_support,
            vote_quorum,
            core_threshold,
            squad_name,
            description,
            token,
            random_id,
            program_id,
            env,
        ),
        SquadInstruction::CreateMultisig {
            vote_quorum,
            squad_name,
            description,
            random_id,
            members_num,
        } => process_create_multisig(
            accounts,
            vote_quorum,
            squad_name,
            description,
            random_id,
            members_num,
            program_id,
            env,
        ),
        SquadInstruction::AddMembersToSquad {
            members_num,
            allocation_table,
        } => process_add_members_to_squad(accounts, members_num, allocation_table, program_id, env),
        SquadInstruction::CreateProposalAccount {
            proposal_type,
            votes_num,
            title,
            description,
            link,
            vote_labels,
            start_timestamp,
            close_timestamp,
            amount,
            minimum_out,
        } => {
            assert(texts_view(vote_labels@) =~= Seq::new(
                vote_labels@.len(),
                |i: int| vote_labels@[i]@,
            ));
            process_create_proposal(
                accounts,
                proposal_type,
                votes_num,
                title,
                description,
                link,
                vote_labels,
                start_timestamp,
                close_timestamp,
                amount,
                minimum_out,
                program_id,
                env,
            )
        },
        SquadInstruction::CastVote { vote } => process_cast_vote(accounts, program_id, vote, env),
        SquadInstruction::ExecuteProposal { random_id } => process_execute_proposal(
            accounts,
            random_id,
            program_id,
            env,
        ),
        SquadInstruction::CastMultisigVote { vote } => process_cast_multisig_vote(
            accounts,
            program_id,
            vote,
            env,
        ),
        SquadInstruction::ExecuteMultisigProposal {
            random_id,
        } => process_execute_multisig_proposal(accounts, random_id, program_id, env),
    }
}

} // verus!
