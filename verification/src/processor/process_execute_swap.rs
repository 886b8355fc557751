//! Swapping treasury assets at the swap venue.

use vstd::prelude::*;
use vstd::bytes::*;
use crate::account::{provision, provision_plan, AccountSnapshot, Action, Environment, Signer};
use crate::address::{
    associated_token_program_bytes, associated_token_seeds, get_associated_token_address,
    native_mint_bytes, native_mint_id, token_program_bytes, token_program_id, Address,
};
use crate::codec::put;
use crate::error::SquadError;
use crate::processor::{address_is, bump_if_matches, bump_of, AccountMeta, Instruction};
use crate::state::squad::TEAM_COORDINATION;
use crate::token::{token_account_valid, unpack_token_account, TokenAccount, TOKEN_ACCOUNT_BYTES};
use crate::{get_sol_address_with_seed, get_wsol_address_with_seed, program_address, sol_seeds, wsol_seeds};

verus! {

/// The bytes of the swap venue's address.
pub open spec fn swap_venue_bytes() -> Seq<u8> {
    seq![
        75u8, 217, 73, 196, 54, 2, 195, 63, 32, 119, 144, 237, 22, 163, 82, 76,
        161, 185, 151, 92, 241, 33, 162, 169, 12, 255, 236, 125, 248, 182, 138, 205,
    ]
}

/// The swap venue's address.
pub fn swap_venue_id() -> (a: Address)
    ensures
        a@ == swap_venue_bytes(),
{
    let a = Address {
        bytes: [
            75u8, 217, 73, 196, 54, 2, 195, 63, 32, 119, 144, 237, 22, 163, 82, 76,
            161, 185, 151, 92, 241, 33, 162, 169, 12, 255, 236, 125, 248, 182, 138, 205,
        ],
    };
    assert(a@ =~= swap_venue_bytes());
    a
}

/// An account that the instruction may write to.
pub open spec fn writable(pubkey: Address) -> AccountMeta {
    AccountMeta { pubkey, is_signer: false, is_writable: true }
}

/// An account that the instruction only reads.
pub open spec fn readonly(pubkey: Address) -> AccountMeta {
    AccountMeta { pubkey, is_signer: false, is_writable: false }
}

/// The data of a swap: the venue's tag for a swap, then the amount to give
/// and the least to take, each in eight bytes, least significant first.
pub open spec fn swap_data(amount_in: u64, minimum_amount_out: u64) -> Seq<u8> {
    seq![9u8] + spec_u64_to_le_bytes(amount_in) + spec_u64_to_le_bytes(minimum_amount_out)
}

/// The swap instruction for the venue: the token program, the pool's and
/// the market's accounts, and the user's accounts, of which the owner of
/// the source signs.
pub fn swap(
    program_id: &Address,
    amm_id: &Address,
    amm_authority: &Address,
    amm_open_orders: &Address,
    amm_target_orders: &Address,
    pool_coin_token_account: &Address,
    pool_pc_token_account: &Address,
    serum_program_id: &Address,
    serum_market: &Address,
    serum_bids: &Address,
    serum_asks: &Address,
    serum_event_queue: &Address,
    serum_coin_vault_account: &Address,
    serum_pc_vault_account: &Address,
    serum_vault_signer: &Address,
    user_source_token_account: &Address,
    user_destination_token_account: &Address,
    user_source_owner: &Address,
    amount_in: u64,
    minimum_amount_out: u64,
) -> (i: Instruction)
    ensures
        i.program_id == *program_id,
        i.data@ == swap_data(amount_in, minimum_amount_out),
        i.accounts@.len() == 18,
        i.accounts@[0].pubkey@ == token_program_bytes() && !i.accounts@[0].is_signer
            && !i.accounts@[0].is_writable,
        i.accounts@.subrange(1, 18) == seq![
            writable(*amm_id),
            readonly(*amm_authority),
            writable(*amm_open_orders),
            writable(*amm_target_orders),
            writable(*pool_coin_token_account),
            writable(*pool_pc_token_account),
            readonly(*serum_program_id),
            writable(*serum_market),
            writable(*serum_bids),
            writable(*serum_asks),
            writable(*serum_event_queue),
            writable(*serum_coin_vault_account),
            writable(*serum_pc_vault_account),
            readonly(*serum_vault_signer),
            writable(*user_source_token_account),
            writable(*user_destination_token_account),
            AccountMeta { pubkey: *user_source_owner, is_signer: true, is_writable: false },
        ],
{
    let mut data: Vec<u8> = Vec::new();
    data.push(9);
    assert(data@ =~= seq![9u8]);
    put(&mut data, u64_to_le_bytes(amount_in).as_slice());
    put(&mut data, u64_to_le_bytes(minimum_amount_out).as_slice());
    let mut accounts: Vec<AccountMeta> = Vec::new();
    accounts.push(AccountMeta { pubkey: token_program_id(), is_signer: false, is_writable: false });
    accounts.push(AccountMeta { pubkey: *amm_id, is_signer: false, is_writable: true });
    accounts.push(AccountMeta { pubkey: *amm_authority, is_signer: false, is_writable: false });
    accounts.push(AccountMeta { pubkey: *amm_open_orders, is_signer: false, is_writable: true });
    accounts.push(AccountMeta { pubkey: *amm_target_orders, is_signer: false, is_writable: true });
    accounts.push(
        AccountMeta { pubkey: *pool_coin_token_account, is_signer: false, is_writable: true },
    );
    accounts.push(AccountMeta { pubkey: *pool_pc_token_account, is_signer: false, is_writable: true });
    accounts.push(AccountMeta { pubkey: *serum_program_id, is_signer: false, is_writable: false });
    accounts.push(AccountMeta { pubkey: *serum_market, is_signer: false, is_writable: true });
    accounts.push(AccountMeta { pubkey: *serum_bids, is_signer: false, is_writable: true });
    accounts.push(AccountMeta { pubkey: *serum_asks, is_signer: false, is_writable: true });
    accounts.push(AccountMeta { pubkey: *serum_event_queue, is_signer: false, is_writable: true });
    accounts.push(
        AccountMeta { pubkey: *serum_coin_vault_account, is_signer: false, is_writable: true },
    );
    accounts.push(
        AccountMeta { pubkey: *serum_pc_vault_account, is_signer: false, is_writable: true },
    );
    accounts.push(AccountMeta { pubkey: *serum_vault_signer, is_signer: false, is_writable: false });
    accounts.push(
        AccountMeta { pubkey: *user_source_token_account, is_signer: false, is_writable: true },
    );
    accounts.push(
        AccountMeta { pubkey: *user_destination_token_account, is_signer: false, is_writable: true },
    );
    accounts.push(AccountMeta { pubkey: *user_source_owner, is_signer: true, is_writable: false });
    assert(accounts@.subrange(1, 18) =~= seq![
        writable(*amm_id),
        readonly(*amm_authority),
        writable(*amm_open_orders),
        writable(*amm_target_orders),
        writable(*pool_coin_token_account),
        writable(*pool_pc_token_account),
        readonly(*serum_program_id),
        writable(*serum_market),
        writable(*serum_bids),
        writable(*serum_asks),
        writable(*serum_event_queue),
        writable(*serum_coin_vault_account),
        writable(*serum_pc_vault_account),
        readonly(*serum_vault_signer),
        writable(*user_source_token_account),
        writable(*user_destination_token_account),
        AccountMeta { pubkey: *user_source_owner, is_signer: true, is_writable: false },
    ]);
    Instruction { program_id: *program_id, accounts, data }
}

/// How far the accounts of a swap stand behind their place in a multisig:
/// a team-coordination squad names its mint before them.
pub open spec fn shift(allocation_type: u8) -> int {
    if allocation_type == TEAM_COORDINATION {
        1
    } else {
        0
    }
}

/// The accounts that the swap instruction names after the token program:
/// the pool's and the market's accounts as they stand in the list, then the
/// treasury's two token accounts and the treasury, which signs.
pub open spec fn swap_metas(accounts: Seq<AccountSnapshot>, allocation_type: u8) -> Seq<AccountMeta> {
    let k = shift(allocation_type);
    seq![
        writable(accounts[15 + k].key),
        readonly(accounts[16 + k].key),
        writable(accounts[17 + k].key),
        writable(accounts[18 + k].key),
        writable(accounts[19 + k].key),
        writable(accounts[20 + k].key),
        readonly(accounts[21 + k].key),
        writable(accounts[22 + k].key),
        writable(accounts[23 + k].key),
        writable(accounts[24 + k].key),
        writable(accounts[25 + k].key),
        writable(accounts[26 + k].key),
        writable(accounts[27 + k].key),
        readonly(accounts[28 + k].key),
        writable(accounts[10 + k].key),
        writable(accounts[11 + k].key),
        AccountMeta { pubkey: accounts[9 + k].key, is_signer: true, is_writable: false },
    ]
}

/// Whether an instruction is the swap that the accounts and the amounts
/// ask for.
pub open spec fn is_swap_of(
    i: Instruction,
    accounts: Seq<AccountSnapshot>,
    allocation_type: u8,
    amount: u64,
    amount_out: u64,
) -> bool {
    &&& i.program_id == accounts[14 + shift(allocation_type)].key
    &&& i.data@ == swap_data(amount, amount_out)
    &&& i.accounts@.len() == 18
    &&& i.accounts@[0].pubkey@ == token_program_bytes()
    &&& !i.accounts@[0].is_signer
    &&& !i.accounts@[0].is_writable
    &&& i.accounts@.subrange(1, 18) == swap_metas(accounts, allocation_type)
}

/// Whether a token account is held by `owner` and is of one of two mints.
pub open spec fn vault_fits(data: Seq<u8>, owner: Seq<u8>, mint_a: Seq<u8>, mint_b: Seq<u8>) -> bool {
    &&& data.subrange(32, 64) == owner
    &&& data.subrange(0, 32) == mint_a || data.subrange(0, 32) == mint_b
}

/// Why a vault of the pool or the market is refused, if it is.
pub open spec fn vault_refusal(data: Seq<u8>, owner: Seq<u8>, mint_a: Seq<u8>, mint_b: Seq<u8>) -> Option<
    SquadError,
> {
    if !token_account_valid(data) {
        Some(SquadError::MalformedRecord)
    } else if !vault_fits(data, owner, mint_a, mint_b) {
        Some(SquadError::AddressMismatch)
    } else {
        None
    }
}

/// Why a swap is refused, if it is. After the accounts of the execution,
/// `k` being 1 in a team-coordination squad and 0 in a multisig, stand at
/// `3 + k` and `4 + k` the two mints, at `9 + k` the treasury, at `10 + k`
/// and `11 + k` the treasury's token accounts, at `12 + k` and `13 + k` the
/// wrapped-native account and mint, at `14 + k` the venue, and from
/// `15 + k` on the pool's and the market's accounts. The checks stand in
/// the order in which they are made.
pub open spec fn swap_refusal(
    accounts: Seq<AccountSnapshot>,
    allocation_type: u8,
    random_id: Seq<char>,
    program_id: Address,
) -> Option<SquadError> {
    let k = shift(allocation_type);
    if accounts.len() < 29 + k {
        Some(SquadError::MissingAccount)
    } else {
        let source_mint = accounts[3 + k].key@;
        let destination_mint = accounts[4 + k].key@;
        let venue = accounts[14 + k].key@;
        let market_program = accounts[21 + k].key@;
        if !address_is(sol_seeds(accounts[1].key@), program_id@, accounts[9 + k].key@) {
            Some(SquadError::AddressMismatch)
        } else if venue != swap_venue_bytes() {
            Some(SquadError::WrongProgram)
        } else if accounts[15 + k].owner@ != venue {
            Some(SquadError::WrongOwner)
        } else if accounts[22 + k].owner@ != market_program {
            Some(SquadError::WrongOwner)
        } else if vault_refusal(
            accounts[19 + k].data@,
            accounts[16 + k].key@,
            source_mint,
            destination_mint,
        ) is Some {
            vault_refusal(accounts[19 + k].data@, accounts[16 + k].key@, source_mint, destination_mint)
        } else if vault_refusal(
            accounts[20 + k].data@,
            accounts[16 + k].key@,
            source_mint,
            destination_mint,
        ) is Some {
            vault_refusal(accounts[20 + k].data@, accounts[16 + k].key@, source_mint, destination_mint)
        } else if accounts[17 + k].owner@ != market_program {
            Some(SquadError::WrongOwner)
        } else if accounts[18 + k].owner@ != venue {
            Some(SquadError::WrongOwner)
        } else if accounts[23 + k].owner@ != market_program {
            Some(SquadError::WrongOwner)
        } else if accounts[24 + k].owner@ != market_program {
            Some(SquadError::WrongOwner)
        } else if vault_refusal(
            accounts[26 + k].data@,
            accounts[28 + k].key@,
            source_mint,
            destination_mint,
        ) is Some {
            vault_refusal(accounts[26 + k].data@, accounts[28 + k].key@, source_mint, destination_mint)
        } else if vault_refusal(
            accounts[27 + k].data@,
            accounts[28 + k].key@,
            source_mint,
            destination_mint,
        ) is Some {
            vault_refusal(accounts[27 + k].data@, accounts[28 + k].key@, source_mint, destination_mint)
        } else if accounts[19 + k].data@.subrange(0, 32) != accounts[26 + k].data@.subrange(0, 32) {
            Some(SquadError::AddressMismatch)
        } else if accounts[20 + k].data@.subrange(0, 32) != accounts[27 + k].data@.subrange(0, 32) {
            Some(SquadError::AddressMismatch)
        } else if program_address(wsol_seeds(accounts[9 + k].key@, random_id), program_id@) is None {
            Some(SquadError::AddressMismatch)
        } else {
            None
        }
    }
}

/// What the ledger is to do for a swap. Where one of the two assets is the
/// native currency the treasury's wrapped-native account is brought into
/// existence before the swap, funded where the native currency is given,
/// and closed after it.
pub open spec fn swap_actions(
    accounts: Seq<AccountSnapshot>,
    amount: u64,
    allocation_type: u8,
    random_id: Seq<char>,
    program_id: Address,
    env: Environment,
) -> Seq<Action> {
    let k = shift(allocation_type);
    let treasury = Signer::Treasury { bump: bump_of(sol_seeds(accounts[1].key@), program_id@) };
    let wrapped = Signer::WrappedNative {
        bump: bump_of(wsol_seeds(accounts[9 + k].key@, random_id), program_id@),
    };
    let sol = accounts[9 + k].key;
    let wsol = accounts[12 + k];
    let native_given = accounts[3 + k].key@ == native_mint_bytes();
    let native_taken = accounts[4 + k].key@ == native_mint_bytes();
    if native_given || native_taken {
        provision_plan(
            accounts[0].key,
            wsol.key,
            wsol.lamports,
            env.rent_token_account,
            TOKEN_ACCOUNT_BYTES as u64,
            accounts[6 + k].key,
            wrapped,
        ) + (if native_given {
            seq![Action::Transfer { from: sol, to: wsol.key, lamports: amount, signer: treasury }]
        } else {
            Seq::<Action>::empty()
        }) + seq![
            Action::InitializeTokenAccount {
                account: wsol.key,
                mint: accounts[13 + k].key,
                owner: sol,
                signer: wrapped,
            },
            Action::InvokeSwap { signer: treasury },
            Action::CloseTokenAccount {
                account: wsol.key,
                destination: sol,
                authority: sol,
                signer: treasury,
            },
        ]
    } else {
        seq![Action::InvokeSwap { signer: treasury }]
    }
}

/// Why the treasury's account for one side of a swap is refused, if it is.
/// For the native currency the account is the treasury's wrapped-native
/// account, for any other asset the treasury's associated token account.
pub open spec fn side_refusal(
    sol: Address,
    asset: Address,
    named: Seq<u8>,
    wsol: Seq<u8>,
    random_id: Seq<char>,
    program_id: Seq<u8>,
) -> Option<SquadError> {
    if asset@ == native_mint_bytes() {
        if !address_is(wsol_seeds(sol@, random_id), program_id, wsol) || named != wsol {
            Some(SquadError::AddressMismatch)
        } else {
            None
        }
    } else if !address_is(associated_token_seeds(sol, asset), associated_token_program_bytes(), named) {
        Some(SquadError::AddressMismatch)
    } else {
        None
    }
}

/// Why the routing of a swap is refused, if it is: the treasury, the
/// wrapped-native mint, and the treasury's accounts for the two assets must
/// be the ones that belong to the squad and to the proposal's assets.
pub open spec fn routing_refusal(
    accounts: Seq<AccountSnapshot>,
    allocation_type: u8,
    random_id: Seq<char>,
    program_id: Address,
) -> Option<SquadError> {
    let k = shift(allocation_type);
    if accounts.len() < 14 + k {
        Some(SquadError::MissingAccount)
    } else if !address_is(sol_seeds(accounts[1].key@), program_id@, accounts[9 + k].key@) {
        Some(SquadError::AddressMismatch)
    } else if accounts[13 + k].key@ != native_mint_bytes() {
        Some(SquadError::AddressMismatch)
    } else if side_refusal(
        accounts[9 + k].key,
        accounts[3 + k].key,
        accounts[10 + k].key@,
        accounts[12 + k].key@,
        random_id,
        program_id@,
    ) is Some {
        Some(SquadError::AddressMismatch)
    } else if side_refusal(
        accounts[9 + k].key,
        accounts[4 + k].key,
        accounts[11 + k].key@,
        accounts[12 + k].key@,
        random_id,
        program_id@,
    ) is Some {
        Some(SquadError::AddressMismatch)
    } else {
        None
    }
}

/// Checks the treasury's account for one side of a swap.
fn check_side(
    sol: &Address,
    asset: &Address,
    named: &Address,
    wsol: &Address,
    random_id: &String,
    program_id: &Address,
) -> (r: Result<(), SquadError>)
    ensures
        match side_refusal(*sol, *asset, named@, wsol@, random_id@, program_id@) {
            Some(e) => r == Err::<(), SquadError>(e),
            None => r is Ok,
        },
{
    if asset.same_as(&native_mint_id()) {
        let derived = get_wsol_address_with_seed(sol, random_id, program_id);
        if bump_if_matches(derived, wsol).is_none() || !named.same_as(wsol) {
            return Err(SquadError::AddressMismatch);
        }
        Ok(())
    } else {
        match get_associated_token_address(sol, asset) {
            Some(address) => if address.same_as(named) {
                Ok(())
            } else {
                Err(SquadError::AddressMismatch)
            },
            None => Err(SquadError::AddressMismatch),
        }
    }
}

/// Checks the routing of a swap against the squad and the proposal's assets.
pub fn check_swap_routing(
    accounts: &[AccountSnapshot],
    allocation_type: u8,
    random_id: &String,
    program_id: &Address,
) -> (r: Result<(), SquadError>)
    ensures
        match routing_refusal(accounts@, allocation_type, random_id@, *program_id) {
            Some(e) => r == Err::<(), SquadError>(e),
            None => r is Ok,
        },
{
    let k: usize = if allocation_type == TEAM_COORDINATION {
        1
    } else {
        0
    };
    if accounts.len() < 14 + k {
        return Err(SquadError::MissingAccount);
    }
    let sol_account = &accounts[9 + k];
    let sol_address = get_sol_address_with_seed(&accounts[1].key, program_id);
    if bump_if_matches(sol_address, &sol_account.key).is_none() {
        return Err(SquadError::AddressMismatch);
    }
    if !accounts[13 + k].key.same_as(&native_mint_id()) {
        return Err(SquadError::AddressMismatch);
    }
    match check_side(
        &sol_account.key,
        &accounts[3 + k].key,
        &accounts[10 + k].key,
        &accounts[12 + k].key,
        random_id,
        program_id,
    ) {
        Ok(()) => {},
        Err(e) => {
            return Err(e);
        },
    }
    check_side(
        &sol_account.key,
        &accounts[4 + k].key,
        &accounts[11 + k].key,
        &accounts[12 + k].key,
        random_id,
        program_id,
    )
}

/// A vault of the pool or the market, where it is held by `owner` and is of
/// one of the two mints.
fn check_vault(account: &AccountSnapshot, owner: &Address, mint_a: &Address, mint_b: &Address) -> (r:
    Result<TokenAccount, SquadError>)
    ensures
        match vault_refusal(account.data@, owner@, mint_a@, mint_b@) {
            Some(e) => r == Err::<TokenAccount, SquadError>(e),
            None => r is Ok && r.unwrap().mint@ == account.data@.subrange(0, 32),
        },
{
    let vault = match unpack_token_account(account.data.as_slice()) {
        Some(vault) => vault,
        None => {
            return Err(SquadError::MalformedRecord);
        },
    };
    if !vault.owner.same_as(owner) {
        return Err(SquadError::AddressMismatch);
    }
    if !vault.mint.same_as(mint_a) && !vault.mint.same_as(mint_b) {
        return Err(SquadError::AddressMismatch);
    }
    Ok(vault)
}

/// Prepares the swap of treasury assets: checks the venue's, the pool's and
/// the market's accounts against one another, and gives the actions for the
/// ledger with the swap instruction that they invoke.
pub fn process_execute_swap(
    accounts: &[AccountSnapshot],
    amount: u64,
    amount_out: u64,
    allocation_type: u8,
    random_id: &String,
    program_id: &Address,
    env: &Environment,
) -> (r: Result<(Vec<Action>, Instruction), SquadError>)
    ensures
        match swap_refusal(accounts@, allocation_type, random_id@, *program_id) {
            Some(e) => r == Err::<(Vec<Action>, Instruction), SquadError>(e),
            None => {
                &&& r is Ok
                &&& r.unwrap().0@ == swap_actions(
                    accounts@,
                    amount,
                    allocation_type,
                    random_id@,
                    *program_id,
                    *env,
                )
                &&& is_swap_of(r.unwrap().1, accounts@, allocation_type, amount, amount_out)
            },
        },
{
    let k: usize = if allocation_type == TEAM_COORDINATION {
        1
    } else {
        0
    };
    if accounts.len() < 29 + k {
        return Err(SquadError::MissingAccount);
    }
    let initializer = &accounts[0];
    let squad_account = &accounts[1];
    let source_mint = &accounts[3 + k];
    let destination_mint = &accounts[4 + k];
    let token_program_account = &accounts[6 + k];
    let sol_account = &accounts[9 + k];
    let source_account = &accounts[10 + k];
    let destination_account = &accounts[11 + k];
    let wsol_account = &accounts[12 + k];
    let wsol_mint = &accounts[13 + k];
    let raydium_id = &accounts[14 + k];
    let amm_id = &accounts[15 + k];
    let amm_authority = &accounts[16 + k];
    let amm_open_orders = &accounts[17 + k];
    let amm_target_orders = &accounts[18 + k];
    let pool_coin_token_account = &accounts[19 + k];
    let pool_pc_token_account = &accounts[20 + k];
    let serum_program_id = &accounts[21 + k];
    let serum_market = &accounts[22 + k];
    let serum_bids = &accounts[23 + k];
    let serum_asks = &accounts[24 + k];
    let serum_event_queue = &accounts[25 + k];
    let serum_coin_vault_account = &accounts[26 + k];
    let serum_pc_vault_account = &accounts[27 + k];
    let serum_vault_signer = &accounts[28 + k];
    let sol_address = get_sol_address_with_seed(&squad_account.key, program_id);
    let sol_bump = match bump_if_matches(sol_address, &sol_account.key) {
        Some(bump) => bump,
        None => {
            return Err(SquadError::AddressMismatch);
        },
    };
    if !raydium_id.key.same_as(&swap_venue_id()) {
        return Err(SquadError::WrongProgram);
    }
    if !amm_id.owner.same_as(&raydium_id.key) {
        return Err(SquadError::WrongOwner);
    }
    if !serum_market.owner.same_as(&serum_program_id.key) {
        return Err(SquadError::WrongOwner);
    }
    let pool_coin = match check_vault(
        pool_coin_token_account,
        &amm_authority.key,
        &source_mint.key,
        &destination_mint.key,
    ) {
        Ok(vault) => vault,
        Err(e) => {
            return Err(e);
        },
    };
    let pool_pc = match check_vault(
        pool_pc_token_account,
        &amm_authority.key,
        &source_mint.key,
        &destination_mint.key,
    ) {
        Ok(vault) => vault,
        Err(e) => {
            return Err(e);
        },
    };
    if !amm_open_orders.owner.same_as(&serum_program_id.key) {
        return Err(SquadError::WrongOwner);
    }
    if !amm_target_orders.owner.same_as(&raydium_id.key) {
        return Err(SquadError::WrongOwner);
    }
    if !serum_bids.owner.same_as(&serum_program_id.key) {
        return Err(SquadError::WrongOwner);
    }
    if !serum_asks.owner.same_as(&serum_program_id.key) {
        return Err(SquadError::WrongOwner);
    }
    let serum_coin = match check_vault(
        serum_coin_vault_account,
        &serum_vault_signer.key,
        &source_mint.key,
        &destination_mint.key,
    ) {
        Ok(vault) => vault,
        Err(e) => {
            return Err(e);
        },
    };
    let serum_pc = match check_vault(
        serum_pc_vault_account,
        &serum_vault_signer.key,
        &source_mint.key,
        &destination_mint.key,
    ) {
        Ok(vault) => vault,
        Err(e) => {
            return Err(e);
        },
    };
    if !pool_coin.mint.same_as(&serum_coin.mint) {
        return Err(SquadError::AddressMismatch);
    }
    if !pool_pc.mint.same_as(&serum_pc.mint) {
        return Err(SquadError::AddressMismatch);
    }
    let wsol_bump = match get_wsol_address_with_seed(&sol_account.key, random_id, program_id) {
        Some((_, bump)) => bump,
        None => {
            return Err(SquadError::AddressMismatch);
        },
    };
    let instruction = swap(
        &raydium_id.key,
        &amm_id.key,
        &amm_authority.key,
        &amm_open_orders.key,
        &amm_target_orders.key,
        &pool_coin_token_account.key,
        &pool_pc_token_account.key,
        &serum_program_id.key,
        &serum_market.key,
        &serum_bids.key,
        &serum_asks.key,
        &serum_event_queue.key,
        &serum_coin_vault_account.key,
        &serum_pc_vault_account.key,
        &serum_vault_signer.key,
        &source_account.key,
        &destination_account.key,
        &sol_account.key,
        amount,
        amount_out,
    );
    assert(instruction.accounts@.subrange(1, 18) =~= swap_metas(accounts@, allocation_type));
    let treasury = Signer::Treasury { bump: sol_bump };
    let wrapped = Signer::WrappedNative { bump: wsol_bump };
    let native = native_mint_id();
    let native_given = source_mint.key.same_as(&native);
    let native_taken = destination_mint.key.same_as(&native);
    let mut actions: Vec<Action> = Vec::new();
    if native_given || native_taken {
        provision(
            &mut actions,
            &initializer.key,
            &wsol_account.key,
            wsol_account.lamports,
            env.rent_token_account,
            TOKEN_ACCOUNT_BYTES as u64,
            &token_program_account.key,
            wrapped,
        );
        if native_given {
            actions.push(
                Action::Transfer {
                    from: sol_account.key,
                    to: wsol_account.key,
                    lamports: amount,
                    signer: treasury,
                },
            );
        }
        actions.push(
            Action::InitializeTokenAccount {
                account: wsol_account.key,
                mint: wsol_mint.key,
                owner: sol_account.key,
                signer: wrapped,
            },
        );
        actions.push(Action::InvokeSwap { signer: treasury });
        actions.push(
            Action::CloseTokenAccount {
                account: wsol_account.key,
                destination: sol_account.key,
                authority: sol_account.key,
                signer: treasury,
            },
        );
    } else {
        actions.push(Action::InvokeSwap { signer: treasury });
    }
    assert(actions@ =~= swap_actions(
        accounts@,
        amount,
        allocation_type,
        random_id@,
        *program_id,
        *env,
    ));
    Ok((actions, instruction))
}

} // verus!
