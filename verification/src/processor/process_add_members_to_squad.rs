//! Admitting the first members of a draft.

use vstd::prelude::*;
use crate::account::{provision, provision_plan, AccountSnapshot, Action, Environment, Signer};
use crate::address::{token_program_bytes, token_program_id, Address};
use crate::codec::pairs_view;
use crate::error::SquadError;
use crate::processor::{address_is, bump_if_matches, bump_of, Outcome};
use crate::registry::{admission_refusal, admit_members};
use crate::roster::with_pairs;
use crate::state::squad::{decoded_squad, SquadView};
use crate::token::TOKEN_ACCOUNT_BYTES;
use crate::{equity_seeds, get_equity_address_with_seed, get_mint_address_with_seed, get_squad, get_squad_address_with_seed, mint_seeds, squad_refusal, squad_seeds};

verus! {

/// The members to admit, each with the equity account named for it: the
/// accounts from the seventh on, two for each member.
pub open spec fn admitted(accounts: Seq<AccountSnapshot>, members_num: u8) -> Seq<(Seq<u8>, Seq<u8>)> {
    Seq::new(members_num as nat, |i: int| (accounts[6 + 2 * i].key@, accounts[7 + 2 * i].key@))
}

/// Whether each equity account named is the one derived for its member.
pub open spec fn equity_accounts_match(
    accounts: Seq<AccountSnapshot>,
    program_id: Address,
    members_num: u8,
) -> bool {
    forall|i: int|
        0 <= i < members_num ==> address_is(
            equity_seeds((#[trigger] accounts[6 + 2 * i]).key@, accounts[1].key@),
            program_id@,
            accounts[7 + 2 * i].key@,
        )
}

/// What the ledger is to do for member `i`: bring the equity account into
/// existence, make it a token account of the squad's mint, and mint the
/// member's allocation to it.
pub open spec fn member_actions(
    accounts: Seq<AccountSnapshot>,
    program_id: Address,
    allocation_table: Seq<u64>,
    env: Environment,
    i: int,
) -> Seq<Action> {
    let member = accounts[6 + 2 * i].key;
    let equity = accounts[7 + 2 * i];
    let signer = Signer::Equity {
        member,
        bump: bump_of(equity_seeds(member@, accounts[1].key@), program_id@),
    };
    provision_plan(
        accounts[0].key,
        equity.key,
        equity.lamports,
        env.rent_token_account,
        TOKEN_ACCOUNT_BYTES as u64,
        accounts[3].key,
        signer,
    ) + seq![
        Action::InitializeTokenAccount {
            account: equity.key,
            mint: accounts[2].key,
            owner: accounts[2].key,
            signer,
        },
        Action::MintTo {
            mint: accounts[2].key,
            account: equity.key,
            authority: accounts[2].key,
            amount: allocation_table[i],
            signer: Signer::Mint { bump: bump_of(mint_seeds(accounts[1].key@), program_id@) },
        },
    ]
}

/// What the ledger is to do for the first `n` members, in order.
pub open spec fn admission_actions(
    accounts: Seq<AccountSnapshot>,
    program_id: Address,
    allocation_table: Seq<u64>,
    env: Environment,
    n: nat,
) -> Seq<Action>
    decreases n,
{
    if n == 0 {
        Seq::empty()
    } else {
        admission_actions(accounts, program_id, allocation_table, env, (n - 1) as nat)
            + member_actions(accounts, program_id, allocation_table, env, n - 1)
    }
}

/// Why members are not admitted, if they are not. The accounts are, in
/// order: the admin, the squad, the squad's mint, the token program, the
/// system program, the rent account, and then for each member the member
/// and the member's equity account. The checks stand in the order in which
/// they are made.
pub open spec fn add_members_refusal(
    accounts: Seq<AccountSnapshot>,
    program_id: Address,
    members_num: u8,
    allocation_table: Seq<u64>,
) -> Option<SquadError> {
    if accounts.len() < 6 {
        Some(SquadError::MissingAccount)
    } else if squad_refusal(program_id@, accounts[1]) is Some {
        squad_refusal(program_id@, accounts[1])
    } else if !accounts[0].is_signer {
        Some(SquadError::MissingSignature)
    } else if !decoded_squad(accounts[1].data@).open {
        Some(SquadError::NotDraft)
    } else if accounts[0].key@ != decoded_squad(accounts[1].data@).admin {
        Some(SquadError::NotAdmin)
    } else if accounts[3].key@ != token_program_bytes() {
        Some(SquadError::WrongProgram)
    } else if !address_is(mint_seeds(accounts[1].key@), program_id@, accounts[2].key@) {
        Some(SquadError::AddressMismatch)
    } else if !address_is(
        squad_seeds(accounts[0].key@, decoded_squad(accounts[1].data@).random_id),
        program_id@,
        accounts[1].key@,
    ) {
        Some(SquadError::AddressMismatch)
    } else if accounts.len() < 6 + 2 * members_num {
        Some(SquadError::MissingAccount)
    } else if allocation_table.len() < members_num {
        Some(SquadError::OutOfRange)
    } else if !equity_accounts_match(accounts, program_id, members_num) {
        Some(SquadError::AddressMismatch)
    } else {
        admission_refusal(
            decoded_squad(accounts[1].data@),
            accounts[0].key@,
            admitted(accounts, members_num),
        )
    }
}

/// What an admission comes to: the refusal, or the squad with its new
/// members, no longer a draft, and the actions that open and fill the
/// members' equity accounts.
pub open spec fn add_members_result(
    accounts: Seq<AccountSnapshot>,
    members_num: u8,
    allocation_table: Seq<u64>,
    program_id: Address,
    env: Environment,
    r: Result<Outcome, SquadError>,
) -> bool {
    match add_members_refusal(accounts, program_id, members_num, allocation_table) {
        Some(e) => r == Err::<Outcome, SquadError>(e),
        None => {
            &&& r is Ok
            &&& r.unwrap().proposal is None
            &&& r.unwrap().receipt is None
            &&& r.unwrap().squad is Some
            &&& r.unwrap().squad.unwrap()@ == (SquadView {
                open: false,
                members: with_pairs(
                    decoded_squad(accounts[1].data@).members,
                    admitted(accounts, members_num),
                ),
                ..decoded_squad(accounts[1].data@)
            })
            &&& r.unwrap().swap is None
            &&& r.unwrap().actions@ == admission_actions(
                accounts,
                program_id,
                allocation_table,
                env,
                members_num as nat,
            )
        },
    }
}

/// Admits the first members of a draft and closes the draft. The ledger is
/// to open each member's equity account and mint the member's allocation
/// to it; then the squad is persisted.
#[verifier::loop_isolation(false)]
pub fn process_add_members_to_squad(
    accounts: &[AccountSnapshot],
    members_num: u8,
    allocation_table: Vec<u64>,
    program_id: &Address,
    env: &Environment,
) -> (r: Result<Outcome, SquadError>)
    ensures
        add_members_result(accounts@, members_num, allocation_table@, *program_id, *env, r),
{
    if accounts.len() < 6 {
        return Err(SquadError::MissingAccount);
    }
    let initializer = &accounts[0];
    let squad_account = &accounts[1];
    let mint_owner = &accounts[2];
    let token_program_account = &accounts[3];
    let mut squad = match get_squad(program_id, squad_account) {
        Ok(squad) => squad,
        Err(e) => {
            return Err(e);
        },
    };
    if !initializer.is_signer {
        return Err(SquadError::MissingSignature);
    }
    if !squad.open {
        return Err(SquadError::NotDraft);
    }
    if !initializer.key.same_as(&squad.admin) {
        return Err(SquadError::NotAdmin);
    }
    if !token_program_account.key.same_as(&token_program_id()) {
        return Err(SquadError::WrongProgram);
    }
    let mint_address = get_mint_address_with_seed(&squad_account.key, program_id);
    let mint_bump = match bump_if_matches(mint_address, &mint_owner.key) {
        Some(bump) => bump,
        None => {
            return Err(SquadError::AddressMismatch);
        },
    };
    let squad_address = get_squad_address_with_seed(&initializer.key, &squad.random_id, program_id);
    if bump_if_matches(squad_address, &squad_account.key).is_none() {
        return Err(SquadError::AddressMismatch);
    }
    if accounts.len() < 6 + 2 * (members_num as usize) {
        return Err(SquadError::MissingAccount);
    }
    if allocation_table.len() < members_num as usize {
        return Err(SquadError::OutOfRange);
    }
    let mut actions: Vec<Action> = Vec::new();
    let mut members: Vec<(Address, Address)> = Vec::new();
    let mut i: usize = 0;
    while i < members_num as usize
        invariant
            i <= members_num,
            accounts@.len() >= 6 + 2 * members_num,
            allocation_table@.len() >= members_num,
            members@.len() == i,
            forall|j: int|
                0 <= j < i ==> members@[j] == (accounts@[6 + 2 * j].key, accounts@[7 + 2 * j].key),
            forall|j: int|
                0 <= j < i ==> address_is(
                    equity_seeds((#[trigger] accounts@[6 + 2 * j]).key@, accounts@[1].key@),
                    program_id@,
                    accounts@[7 + 2 * j].key@,
                ),
            actions@ == admission_actions(accounts@, *program_id, allocation_table@, *env, i as nat),
            mint_bump == bump_of(mint_seeds(accounts@[1].key@), program_id@),
            *initializer == accounts@[0],
            *squad_account == accounts@[1],
            *mint_owner == accounts@[2],
            *token_program_account == accounts@[3],
        decreases members_num - i,
    {
        let member = &accounts[6 + 2 * i];
        let member_account = &accounts[7 + 2 * i];
        let equity = get_equity_address_with_seed(&member.key, &squad_account.key, program_id);
        let bump = match bump_if_matches(equity, &member_account.key) {
            Some(bump) => bump,
            None => {
                assert(!equity_accounts_match(accounts@, *program_id, members_num)) by {
                    assert(!address_is(
                        equity_seeds(accounts@[6 + 2 * (i as int)].key@, accounts@[1].key@),
                        program_id@,
                        accounts@[7 + 2 * (i as int)].key@,
                    ));
                }
                return Err(SquadError::AddressMismatch);
            },
        };
        let signer = Signer::Equity { member: member.key, bump };
        provision(
            &mut actions,
            &initializer.key,
            &member_account.key,
            member_account.lamports,
            env.rent_token_account,
            TOKEN_ACCOUNT_BYTES as u64,
            &token_program_account.key,
            signer,
        );
        actions.push(
            Action::InitializeTokenAccount {
                account: member_account.key,
                mint: mint_owner.key,
                owner: mint_owner.key,
                signer,
            },
        );
        actions.push(
            Action::MintTo {
                mint: mint_owner.key,
                account: member_account.key,
                authority: mint_owner.key,
                amount: allocation_table[i],
                signer: Signer::Mint { bump: mint_bump },
            },
        );
        members.push((member.key, member_account.key));
        assert(actions@ =~= admission_actions(
            accounts@,
            *program_id,
            allocation_table@,
            *env,
            (i + 1) as nat,
        ));
        i += 1;
    }
    assert(pairs_view(members@) =~= admitted(accounts@, members_num));
    assert(equity_accounts_match(accounts@, *program_id, members_num));
    match admit_members(&mut squad, &initializer.key, &members) {
        Ok(()) => {},
        Err(e) => {
            return Err(e);
        },
    }
    Ok(Outcome { actions, squad: Some(squad), proposal: None, receipt: None, swap: None })
}

} // verus!
