//! Creating a team-coordination squad.

use vstd::prelude::*;
use crate::account::{needed_balance, AccountSnapshot, Action, Environment, Signer};
use crate::address::{token_program_bytes, token_program_id, Address};
use crate::error::SquadError;
use crate::processor::{address_is, bump_if_matches, bump_of, Outcome};
use crate::registry::{create_squad, team_creation_refusal, team_squad};
use crate::state::squad::{blank_squad, Squad, SQUAD_TOTAL_BYTES, TEAM_COORDINATION};
use crate::token::MINT_BYTES;
use crate::{get_mint_address_with_seed, get_sol_address_with_seed, get_squad_address_with_seed, mint_seeds, sol_seeds, squad_seeds, program_address};

verus! {

/// Why a team-coordination squad is not created, if it is not. The
/// accounts are, in order: the payer, the squad, the squad's mint, the
/// token program, the system program and the rent account. The checks
/// stand in the order in which they are made.
pub open spec fn create_squad_refusal(
    accounts: Seq<AccountSnapshot>,
    program_id: Address,
    allocation_type: u8,
    vote_support: u8,
    vote_quorum: u8,
    squad_name: Seq<char>,
    description: Seq<char>,
    token: Seq<char>,
    random_id: Seq<char>,
) -> Option<SquadError> {
    if accounts.len() < 6 {
        Some(SquadError::MissingAccount)
    } else if !accounts[0].is_signer {
        Some(SquadError::MissingSignature)
    } else if allocation_type != TEAM_COORDINATION {
        Some(SquadError::WrongMode)
    } else if !address_is(squad_seeds(accounts[0].key@, random_id), program_id@, accounts[1].key@) {
        Some(SquadError::AddressMismatch)
    } else if accounts[1].data@.len() > 0 {
        Some(SquadError::SquadAlreadyExists)
    } else if accounts[3].key@ != token_program_bytes() {
        Some(SquadError::WrongProgram)
    } else if !address_is(mint_seeds(accounts[1].key@), program_id@, accounts[2].key@) {
        Some(SquadError::AddressMismatch)
    } else if program_address(sol_seeds(accounts[1].key@), program_id@) is None {
        Some(SquadError::AddressMismatch)
    } else {
        team_creation_refusal(
            blank_squad(),
            allocation_type,
            vote_support,
            vote_quorum,
            squad_name,
            description,
            token,
            random_id,
        )
    }
}

/// What the creation of a team-coordination squad comes to: the refusal,
/// or the squad and the actions that create its account and its mint.
pub open spec fn create_squad_result(
    accounts: Seq<AccountSnapshot>,
    allocation_type: u8,
    vote_support: u8,
    vote_quorum: u8,
    core_threshold: u8,
    squad_name: Seq<char>,
    description: Seq<char>,
    token: Seq<char>,
    random_id: Seq<char>,
    program_id: Address,
    env: Environment,
    r: Result<Outcome, SquadError>,
) -> bool {
    match create_squad_refusal(
        accounts,
        program_id,
        allocation_type,
        vote_support,
        vote_quorum,
        squad_name,
        description,
        token,
        random_id,
    ) {
        Some(e) => r == Err::<Outcome, SquadError>(e),
        None => {
            &&& r is Ok
            &&& r.unwrap().proposal is None
            &&& r.unwrap().receipt is None
            &&& r.unwrap().squad is Some
            &&& r.unwrap().squad.unwrap()@ == team_squad(
                blank_squad(),
                vote_support,
                vote_quorum,
                core_threshold,
                squad_name,
                description,
                token,
                accounts[0].key@,
                accounts[2].key@,
                program_address(sol_seeds(accounts[1].key@), program_id@).unwrap().0,
                env.now,
                random_id,
            )
            &&& r.unwrap().swap is None
            &&& r.unwrap().actions@ == seq![
                Action::CreateAccount {
                    payer: accounts[0].key,
                    account: accounts[1].key,
                    lamports: needed_balance(env.rent_squad),
                    space: SQUAD_TOTAL_BYTES as u64,
                    owner: program_id,
                    signer: Signer::Squad {
                        bump: bump_of(squad_seeds(accounts[0].key@, random_id), program_id@),
                    },
                },
                Action::CreateAccount {
                    payer: accounts[0].key,
                    account: accounts[2].key,
                    lamports: needed_balance(env.rent_mint),
                    space: MINT_BYTES as u64,
                    owner: accounts[3].key,
                    signer: Signer::Mint {
                        bump: bump_of(mint_seeds(accounts[1].key@), program_id@),
                    },
                },
                Action::InitializeMint {
                    mint: accounts[2].key,
                    authority: accounts[2].key,
                    signer: Signer::Mint {
                        bump: bump_of(mint_seeds(accounts[1].key@), program_id@),
                    },
                },
            ]
        },
    }
}

/// Creates a team-coordination squad as a draft. The ledger is to create
/// the squad's account and the account of its mint, and to make the latter
/// a mint under its own authority; then the squad is persisted.
pub fn process_create_squad(
    accounts: &[AccountSnapshot],
    allocation_type: u8,
    vote_support: u8,
    vote_quorum: u8,
    core_threshold: u8,
    squad_name: String,
    description: String,
    token: String,
    random_id: String,
    program_id: &Address,
    env: &Environment,
) -> (r: Result<Outcome, SquadError>)
    ensures
        create_squad_result(
            accounts@,
            allocation_type,
            vote_support,
            vote_quorum,
            core_threshold,
            squad_name@,
            description@,
            token@,
            random_id@,
            *program_id,
            *env, r),
{
    if accounts.len() < 6 {
        return Err(SquadError::MissingAccount);
    }
    let payer = &accounts[0];
    let squad_account = &accounts[1];
    let mint_owner = &accounts[2];
    let token_program_account = &accounts[3];
    if !payer.is_signer {
        return Err(SquadError::MissingSignature);
    }
    if allocation_type != TEAM_COORDINATION {
        return Err(SquadError::WrongMode);
    }
    let squad_address = get_squad_address_with_seed(&payer.key, &random_id, program_id);
    let squad_bump = match bump_if_matches(squad_address, &squad_account.key) {
        Some(bump) => bump,
        None => {
            return Err(SquadError::AddressMismatch);
        },
    };
    if squad_account.data.len() > 0 {
        return Err(SquadError::SquadAlreadyExists);
    }
    if !token_program_account.key.same_as(&token_program_id()) {
        return Err(SquadError::WrongProgram);
    }
    let mint_address = get_mint_address_with_seed(&squad_account.key, program_id);
    let mint_bump = match bump_if_matches(mint_address, &mint_owner.key) {
        Some(bump) => bump,
        None => {
            return Err(SquadError::AddressMismatch);
        },
    };
    let sol_account = match get_sol_address_with_seed(&squad_account.key, program_id) {
        Some((sol_account, _)) => sol_account,
        None => {
            return Err(SquadError::AddressMismatch);
        },
    };
    let mut squad = Squad::blank();
    match create_squad(
        &mut squad,
        allocation_type,
        vote_support,
        vote_quorum,
        core_threshold,
        squad_name,
        description,
        token,
        &payer.key,
        &mint_owner.key,
        &sol_account,
        env.now,
        random_id,
    ) {
        Ok(()) => {},
        Err(e) => {
            return Err(e);
        },
    }
    let needed_squad: u64 = if env.rent_squad == 0 {
        1
    } else {
        env.rent_squad
    };
    let needed_mint: u64 = if env.rent_mint == 0 {
        1
    } else {
        env.rent_mint
    };
    let first = Action::CreateAccount {
        payer: payer.key,
        account: squad_account.key,
        lamports: needed_squad,
        space: SQUAD_TOTAL_BYTES as u64,
        owner: *program_id,
        signer: Signer::Squad { bump: squad_bump },
    };
    let second = Action::CreateAccount {
        payer: payer.key,
        account: mint_owner.key,
        lamports: needed_mint,
        space: MINT_BYTES as u64,
        owner: token_program_account.key,
        signer: Signer::Mint { bump: mint_bump },
    };
    let third = Action::InitializeMint {
        mint: mint_owner.key,
        authority: mint_owner.key,
        signer: Signer::Mint { bump: mint_bump },
    };
    let mut actions: Vec<Action> = Vec::new();
    actions.push(first);
    actions.push(second);
    actions.push(third);
    assert(actions@ =~= seq![first, second, third]);
    Ok(Outcome { actions, squad: Some(squad), proposal: None, receipt: None, swap: None })
}

} // verus!
