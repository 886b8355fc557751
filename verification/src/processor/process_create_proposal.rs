//! Creating a proposal.

use vstd::prelude::*;
use crate::account::{provision, provision_plan, AccountSnapshot, Action, Environment, Signer};
use crate::address::Address;
use crate::codec::zeros;
use crate::error::SquadError;
use crate::lifecycle::{create_proposal, created, creation_refusal, next_index, ProposalRequest, ProposalRequestView};
use crate::processor::{address_is, bump_if_matches, bump_of, Outcome};
use crate::state::proposal::{blank_proposal, texts_view, Proposal, ProposalType, PROPOSAL_TOTAL_BYTES};
use crate::state::squad::{decoded_squad, SquadView};
use crate::{get_proposal_address_with_seed, get_squad, proposal_seeds, squad_refusal};

verus! {

/// How many accounts a type of proposal names after the six that every
/// proposal names: the source and the destination of a payment or a swap,
/// or the member concerned.
pub open spec fn accounts_named(kind: ProposalType) -> nat {
    match kind {
        ProposalType::WithdrawSol | ProposalType::WithdrawSpl | ProposalType::Swap => 2,
        ProposalType::AddMember | ProposalType::RemoveMember | ProposalType::MintMemberToken => 1,
        _ => 0,
    }
}

/// The source that a proposal records from its accounts.
pub open spec fn named_source(accounts: Seq<AccountSnapshot>, kind: ProposalType) -> Seq<u8> {
    if accounts_named(kind) == 2 {
        accounts[6].key@
    } else {
        zeros(32)
    }
}

/// The destination that a proposal records from its accounts.
pub open spec fn named_destination(accounts: Seq<AccountSnapshot>, kind: ProposalType) -> Seq<u8> {
    if accounts_named(kind) == 2 {
        accounts[7].key@
    } else if accounts_named(kind) == 1 {
        accounts[6].key@
    } else {
        zeros(32)
    }
}

/// What is asked of the new proposal, its accounts included.
pub open spec fn requested(
    accounts: Seq<AccountSnapshot>,
    kind: ProposalType,
    proposal_type: u8,
    votes_num: u8,
    title: Seq<char>,
    description: Seq<char>,
    link: Seq<char>,
    vote_labels: Seq<Seq<char>>,
    start_timestamp: i64,
    close_timestamp: i64,
    amount: u64,
    minimum_out: u64,
) -> ProposalRequestView {
    ProposalRequestView {
        proposal_type,
        votes_num,
        title,
        description,
        link,
        vote_labels,
        start_timestamp,
        close_timestamp,
        amount,
        minimum_out,
        source: named_source(accounts, kind),
        destination: named_destination(accounts, kind),
    }
}

/// Why the accounts of a new proposal are refused, if they are. The
/// accounts are, in order: the creator, the squad, the proposal, the system
/// program, the rent account, this program, and then those that the type of
/// the proposal names. The checks stand in the order in which they are made.
pub open spec fn proposal_accounts_refusal(
    accounts: Seq<AccountSnapshot>,
    program_id: Address,
    proposal_type: u8,
) -> Option<SquadError> {
    if accounts.len() < 6 {
        Some(SquadError::MissingAccount)
    } else if !accounts[0].is_signer {
        Some(SquadError::MissingSignature)
    } else if squad_refusal(program_id@, accounts[1]) is Some {
        squad_refusal(program_id@, accounts[1])
    } else if accounts[5].key@ != program_id@ {
        Some(SquadError::WrongProgram)
    } else if accounts[2].data@.len() > 0 {
        Some(SquadError::AlreadyInitialized)
    } else if next_index(decoded_squad(accounts[1].data@)) > u32::MAX {
        Some(SquadError::Overflow)
    } else if !address_is(
        proposal_seeds(accounts[1].key@, next_index(decoded_squad(accounts[1].data@)) as u32),
        program_id@,
        accounts[2].key@,
    ) {
        Some(SquadError::AddressMismatch)
    } else {
        match ProposalType::of_tag(proposal_type) {
            None => Some(SquadError::UnknownProposalType),
            Some(kind) => if accounts.len() < 6 + accounts_named(kind) {
                Some(SquadError::MissingAccount)
            } else {
                None
            },
        }
    }
}

/// What the creation of a proposal comes to: the refusal for the accounts
/// or for the request, or the proposal, the squad whose counter has moved
/// on, and the actions that bring the proposal's account into existence.
pub open spec fn create_proposal_result(
    accounts: Seq<AccountSnapshot>,
    proposal_type: u8,
    votes_num: u8,
    title: Seq<char>,
    description: Seq<char>,
    link: Seq<char>,
    vote_labels: Seq<Seq<char>>,
    start_timestamp: i64,
    close_timestamp: i64,
    amount: u64,
    minimum_out: u64,
    program_id: Address,
    env: Environment,
    r: Result<Outcome, SquadError>,
) -> bool {
    if proposal_accounts_refusal(accounts, program_id, proposal_type) is Some {
        r == Err::<Outcome, SquadError>(
            proposal_accounts_refusal(accounts, program_id, proposal_type).unwrap(),
        )
    } else {
        let squad = decoded_squad(accounts[1].data@);
        let request = requested(
            accounts,
            ProposalType::of_tag(proposal_type).unwrap(),
            proposal_type,
            votes_num,
            title,
            description,
            link,
            vote_labels,
            start_timestamp,
            close_timestamp,
            amount,
            minimum_out,
        );
        match creation_refusal(squad, blank_proposal(), accounts[0].key@, request) {
            Some(e) => r == Err::<Outcome, SquadError>(e),
            None => {
                &&& r is Ok
                &&& r.unwrap().receipt is None
                &&& r.unwrap().squad is Some
                &&& r.unwrap().squad.unwrap()@ == (SquadView {
                    proposal_nonce: next_index(squad) as u32,
                    ..squad
                })
                &&& r.unwrap().proposal is Some
                &&& r.unwrap().proposal.unwrap()@ == created(
                    squad,
                    blank_proposal(),
                    accounts[1].key@,
                    accounts[0].key@,
                    request,
                    env.now,
                )
                &&& r.unwrap().swap is None
            &&& r.unwrap().actions@ == provision_plan(
                    accounts[0].key,
                    accounts[2].key,
                    accounts[2].lamports,
                    env.rent_proposal,
                    PROPOSAL_TOTAL_BYTES as u64,
                    program_id,
                    Signer::Proposal {
                        index: next_index(squad) as u32,
                        bump: bump_of(
                            proposal_seeds(accounts[1].key@, next_index(squad) as u32),
                            program_id@,
                        ),
                    },
                )
            },
        }
    }
}

/// Creates a proposal against a squad. The ledger is to bring the
/// proposal's account into existence; then the proposal and the squad,
/// whose counter has moved on, are persisted.
pub fn process_create_proposal(
    accounts: &[AccountSnapshot],
    proposal_type: u8,
    votes_num: u8,
    title: String,
    description: String,
    link: String,
    vote_labels: Vec<String>,
    start_timestamp: i64,
    close_timestamp: i64,
    amount: u64,
    minimum_out: u64,
    program_id: &Address,
    env: &Environment,
) -> (r: Result<Outcome, SquadError>)
    ensures
        create_proposal_result(
            accounts@,
            proposal_type,
            votes_num,
            title@,
            description@,
            link@,
            texts_view(vote_labels@),
            start_timestamp,
            close_timestamp,
            amount,
            minimum_out,
            *program_id,
            *env, r),
{
    if accounts.len() < 6 {
        return Err(SquadError::MissingAccount);
    }
    let initializer = &accounts[0];
    let squad_account = &accounts[1];
    let proposal_account = &accounts[2];
    let squads_program_account = &accounts[5];
    if !initializer.is_signer {
        return Err(SquadError::MissingSignature);
    }
    let mut squad = match get_squad(program_id, squad_account) {
        Ok(squad) => squad,
        Err(e) => {
            return Err(e);
        },
    };
    if !squads_program_account.key.same_as(program_id) {
        return Err(SquadError::WrongProgram);
    }
    if proposal_account.data.len() > 0 {
        return Err(SquadError::AlreadyInitialized);
    }
    if squad.proposal_nonce == u32::MAX {
        return Err(SquadError::Overflow);
    }
    let index: u32 = squad.proposal_nonce + 1;
    let proposal_address = get_proposal_address_with_seed(&squad_account.key, program_id, &index);
    let bump = match bump_if_matches(proposal_address, &proposal_account.key) {
        Some(bump) => bump,
        None => {
            return Err(SquadError::AddressMismatch);
        },
    };
    let kind = match ProposalType::from_u8(proposal_type) {
        Some(kind) => kind,
        None => {
            return Err(SquadError::UnknownProposalType);
        },
    };
    let named: usize = match kind {
        ProposalType::WithdrawSol | ProposalType::WithdrawSpl | ProposalType::Swap => 2,
        ProposalType::AddMember | ProposalType::RemoveMember | ProposalType::MintMemberToken => 1,
        _ => 0,
    };
    if accounts.len() < 6 + named {
        return Err(SquadError::MissingAccount);
    }
    let source = if named == 2 {
        accounts[6].key
    } else {
        Address::zero()
    };
    let destination = if named == 2 {
        accounts[7].key
    } else if named == 1 {
        accounts[6].key
    } else {
        Address::zero()
    };
    let request = ProposalRequest {
        proposal_type,
        votes_num,
        title,
        description,
        link,
        vote_labels,
        start_timestamp,
        close_timestamp,
        amount,
        minimum_out,
        source,
        destination,
    };
    let mut proposal = Proposal::blank();
    match create_proposal(
        &mut squad,
        &mut proposal,
        &squad_account.key,
        &initializer.key,
        request,
        env.now,
    ) {
        Ok(()) => {},
        Err(e) => {
            return Err(e);
        },
    }
    let mut actions: Vec<Action> = Vec::new();
    provision(
        &mut actions,
        &initializer.key,
        &proposal_account.key,
        proposal_account.lamports,
        env.rent_proposal,
        PROPOSAL_TOTAL_BYTES as u64,
        program_id,
        Signer::Proposal { index, bump },
    );
    Ok(Outcome { actions, squad: Some(squad), proposal: Some(proposal), receipt: None, swap: None })
}

} // verus!
