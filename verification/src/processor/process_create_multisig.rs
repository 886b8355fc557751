//! Creating a multisig.

use vstd::prelude::*;
use crate::account::{needed_balance, AccountSnapshot, Action, Environment, Signer};
use crate::address::Address;
use crate::error::SquadError;
use crate::processor::{address_is, bump_if_matches, bump_of, Outcome};
use crate::registry::{addresses_view, create_multisig, multisig_creation_refusal, multisig_squad};
use crate::state::squad::{blank_squad, Squad, SQUAD_TOTAL_BYTES};
use crate::{get_sol_address_with_seed, get_squad_address_with_seed, sol_seeds, squad_seeds, program_address};

verus! {

/// The members named: the accounts from the sixth on.
pub open spec fn named_members(accounts: Seq<AccountSnapshot>, members_num: u8) -> Seq<Seq<u8>> {
    Seq::new(members_num as nat, |i: int| accounts[5 + i].key@)
}

/// Why a multisig is not created, if it is not. The accounts are, in
/// order: the payer, the squad, the system program, the rent account, this
/// program, and then the members. The checks stand in the order in which
/// they are made.
pub open spec fn create_multisig_refusal(
    accounts: Seq<AccountSnapshot>,
    program_id: Address,
    vote_quorum: u8,
    squad_name: Seq<char>,
    description: Seq<char>,
    random_id: Seq<char>,
    members_num: u8,
) -> Option<SquadError> {
    if accounts.len() < 5 {
        Some(SquadError::MissingAccount)
    } else if !accounts[0].is_signer {
        Some(SquadError::MissingSignature)
    } else if !address_is(squad_seeds(accounts[0].key@, random_id), program_id@, accounts[1].key@) {
        Some(SquadError::AddressMismatch)
    } else if accounts[1].data@.len() > 0 {
        Some(SquadError::SquadAlreadyExists)
    } else if program_address(sol_seeds(accounts[1].key@), program_id@) is None {
        Some(SquadError::AddressMismatch)
    } else if accounts.len() < 5 + members_num {
        Some(SquadError::MissingAccount)
    } else {
        multisig_creation_refusal(
            blank_squad(),
            vote_quorum,
            squad_name,
            description,
            random_id,
            named_members(accounts, members_num),
        )
    }
}

/// What the creation of a multisig comes to: the refusal, or the squad and
/// the action that creates its account.
pub open spec fn create_multisig_result(
    accounts: Seq<AccountSnapshot>,
    vote_quorum: u8,
    squad_name: Seq<char>,
    description: Seq<char>,
    random_id: Seq<char>,
    members_num: u8,
    program_id: Address,
    env: Environment,
    r: Result<Outcome, SquadError>,
) -> bool {
    match create_multisig_refusal(
        accounts,
        program_id,
        vote_quorum,
        squad_name,
        description,
        random_id,
        members_num,
    ) {
        Some(e) => r == Err::<Outcome, SquadError>(e),
        None => {
            &&& r is Ok
            &&& r.unwrap().proposal is None
            &&& r.unwrap().receipt is None
            &&& r.unwrap().squad is Some
            &&& r.unwrap().squad.unwrap()@.quorum_satisfiable()
            &&& r.unwrap().squad.unwrap()@ == multisig_squad(
                blank_squad(),
                vote_quorum,
                squad_name,
                description,
                accounts[0].key@,
                program_address(sol_seeds(accounts[1].key@), program_id@).unwrap().0,
                env.now,
                random_id,
                named_members(accounts, members_num),
            )
            &&& r.unwrap().swap is None
            &&& r.unwrap().actions@ == seq![
                Action::CreateAccount {
                    payer: accounts[0].key,
                    account: accounts[1].key,
                    lamports: needed_balance(env.rent_squad),
                    space: SQUAD_TOTAL_BYTES as u64,
                    owner: program_id,
                    signer: Signer::Squad {
                        bump: bump_of(squad_seeds(accounts[0].key@, random_id), program_id@),
                    },
                },
            ]
        },
    }
}

/// Creates a multisig with the members named. The ledger is to create the
/// squad's account; then the squad is persisted.
pub fn process_create_multisig(
    accounts: &[AccountSnapshot],
    vote_quorum: u8,
    squad_name: String,
    description: String,
    random_id: String,
    members_num: u8,
    program_id: &Address,
    env: &Environment,
) -> (r: Result<Outcome, SquadError>)
    ensures
        create_multisig_result(
            accounts@,
            vote_quorum,
            squad_name@,
            description@,
            random_id@,
            members_num,
            *program_id,
            *env, r),
{
    if accounts.len() < 5 {
        return Err(SquadError::MissingAccount);
    }
    let payer = &accounts[0];
    let squad_account = &accounts[1];
    if !payer.is_signer {
        return Err(SquadError::MissingSignature);
    }
    let squad_address = get_squad_address_with_seed(&payer.key, &random_id, program_id);
    let squad_bump = match bump_if_matches(squad_address, &squad_account.key) {
        Some(bump) => bump,
        None => {
            return Err(SquadError::AddressMismatch);
        },
    };
    if squad_account.data.len() > 0 {
        return Err(SquadError::SquadAlreadyExists);
    }
    let sol_account = match get_sol_address_with_seed(&squad_account.key, program_id) {
        Some((sol_account, _)) => sol_account,
        None => {
            return Err(SquadError::AddressMismatch);
        },
    };
    if accounts.len() < 5 + members_num as usize {
        return Err(SquadError::MissingAccount);
    }
    let mut members: Vec<Address> = Vec::new();
    let mut i: usize = 0;
    while i < members_num as usize
        invariant
            i <= members_num,
            accounts@.len() >= 5 + members_num,
            members@.len() == i,
            forall|j: int| 0 <= j < i ==> members@[j] == accounts@[5 + j].key,
        decreases members_num - i,
    {
        members.push(accounts[5 + i].key);
        i += 1;
    }
    assert(addresses_view(members@) =~= named_members(accounts@, members_num));
    let mut squad = Squad::blank();
    match create_multisig(
        &mut squad,
        vote_quorum,
        squad_name,
        description,
        &payer.key,
        &sol_account,
        env.now,
        random_id,
        &members,
    ) {
        Ok(()) => {},
        Err(e) => {
            return Err(e);
        },
    }
    let needed: u64 = if env.rent_squad == 0 {
        1
    } else {
        env.rent_squad
    };
    let first = Action::CreateAccount {
        payer: payer.key,
        account: squad_account.key,
        lamports: needed,
        space: SQUAD_TOTAL_BYTES as u64,
        owner: *program_id,
        signer: Signer::Squad { bump: squad_bump },
    };
    let mut actions: Vec<Action> = Vec::new();
    actions.push(first);
    assert(actions@ =~= seq![first]);
    Ok(Outcome { actions, squad: Some(squad), proposal: None, receipt: None, swap: None })
}

} // verus!
