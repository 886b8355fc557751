//! Governance engine for member-owned squads: proposals, weighted voting with
//! early decision, and execution of decided proposals.

use vstd::prelude::*;
use vstd::bytes::*;
use vstd::slice::*;
use crate::account::AccountSnapshot;
pub use crate::address::program_address;
use crate::address::{seeds_view, try_find_program_address, Address};
use crate::codec::text_bytes;
use crate::error::SquadError;
use crate::state::proposal::{
    decoded_proposal, proposal_decodable, Proposal, PROPOSAL_TOTAL_BYTES,
};
use crate::state::squad::{decoded_squad, squad_decodable, Squad, SQUAD_TOTAL_BYTES};
use crate::state::vote::{
    decoded_receipt, receipt_decodable, VoteReceipt, VOTE_RECEIPT_TOTAL_BYTES,
};

pub mod account;
pub mod address;
pub mod ballot;
pub mod codec;
pub mod dispatcher;
pub mod error;
pub mod instruction;
pub mod laws;
pub mod lifecycle;
pub mod processor;
pub mod registry;
pub mod roster;
pub mod state;
pub mod tally;
pub mod token;

pub use crate::state::squad::{count_from_le, transform_u32_to_array_of_u8};

verus! {

/// A time in seconds since the epoch.
pub type UnixTimestamp = i64;

/// Whether the bytes of an account of this program hold a squad.
pub open spec fn holds_squad(data: Seq<u8>) -> bool {
    data.len() == SQUAD_TOTAL_BYTES && squad_decodable(data)
}

/// Whether the bytes of an account of this program hold a proposal.
pub open spec fn holds_proposal(data: Seq<u8>) -> bool {
    data.len() == PROPOSAL_TOTAL_BYTES && proposal_decodable(data)
}

/// Whether the bytes of an account of this program hold a vote receipt.
pub open spec fn holds_receipt(data: Seq<u8>) -> bool {
    data.len() == VOTE_RECEIPT_TOTAL_BYTES && receipt_decodable(data)
}

/// Why a squad is not read from its account, if it is not.
pub open spec fn squad_refusal(program_id: Seq<u8>, squad_account: AccountSnapshot) -> Option<
    SquadError,
> {
    if squad_account.owner@ != program_id {
        Some(SquadError::WrongOwner)
    } else if !holds_squad(squad_account.data@) {
        Some(SquadError::MalformedRecord)
    } else {
        None
    }
}

/// The squad held in an account that this program owns.
pub fn get_squad(program_id: &Address, squad_account: &AccountSnapshot) -> (r: Result<
    Squad,
    SquadError,
>)
    ensures
        match squad_refusal(program_id@, *squad_account) {
            Some(e) => r == Err::<Squad, SquadError>(e),
            None => r is Ok && r.unwrap()@ == decoded_squad(squad_account.data@) && r.unwrap().wf(),
        },
{
    if !squad_account.owner.same_as(program_id) {
        return Err(SquadError::WrongOwner);
    }
    Squad::unpack_unchecked(squad_account.data.as_slice())
}

/// Why a proposal is not read from its account, if it is not.
pub open spec fn proposal_refusal(
    program_id: Seq<u8>,
    squad_account: AccountSnapshot,
    proposal_account: AccountSnapshot,
) -> Option<SquadError> {
    if squad_account.owner@ != program_id {
        Some(SquadError::WrongOwner)
    } else if proposal_account.owner@ != program_id {
        Some(SquadError::WrongOwner)
    } else if !holds_proposal(proposal_account.data@) {
        Some(SquadError::MalformedRecord)
    } else if decoded_proposal(proposal_account.data@).is_initialized && decoded_proposal(
        proposal_account.data@,
    ).squad_address != squad_account.key@ {
        Some(SquadError::AddressMismatch)
    } else {
        None
    }
}

/// The proposal held in an account that this program owns. A proposal that
/// was set up belongs to the squad given.
pub fn get_proposal(
    program_id: &Address,
    squad_account: &AccountSnapshot,
    proposal_account: &AccountSnapshot,
) -> (r: Result<Proposal, SquadError>)
    ensures
        match proposal_refusal(program_id@, *squad_account, *proposal_account) {
            Some(e) => r == Err::<Proposal, SquadError>(e),
            None => r is Ok && r.unwrap()@ == decoded_proposal(proposal_account.data@)
                && r.unwrap().wf(),
        },
{
    if !squad_account.owner.same_as(program_id) {
        return Err(SquadError::WrongOwner);
    }
    if !proposal_account.owner.same_as(program_id) {
        return Err(SquadError::WrongOwner);
    }
    let proposal = match Proposal::unpack_unchecked(proposal_account.data.as_slice()) {
        Ok(proposal) => proposal,
        Err(e) => {
            return Err(e);
        },
    };
    if proposal.is_initialized && !proposal.squad_address.same_as(&squad_account.key) {
        return Err(SquadError::AddressMismatch);
    }
    Ok(proposal)
}

/// Why an account is not taken for a new vote receipt, if it is not.
pub open spec fn receipt_refusal(
    program_id: Seq<u8>,
    squad_account: AccountSnapshot,
    vote_account: AccountSnapshot,
) -> Option<SquadError> {
    if squad_account.owner@ != program_id {
        Some(SquadError::WrongOwner)
    } else if vote_account.owner@ != program_id {
        Some(SquadError::WrongOwner)
    } else if !holds_receipt(vote_account.data@) {
        Some(SquadError::MalformedRecord)
    } else if decoded_receipt(vote_account.data@).is_initialized {
        Some(SquadError::DuplicateVote)
    } else {
        None
    }
}

/// The blank receipt held in an account that was made for a vote. An
/// account that holds a receipt already is refused.
pub fn get_vote(
    program_id: &Address,
    squad_account: &AccountSnapshot,
    vote_account: &AccountSnapshot,
) -> (r: Result<VoteReceipt, SquadError>)
    ensures
        match receipt_refusal(program_id@, *squad_account, *vote_account) {
            Some(e) => r == Err::<VoteReceipt, SquadError>(e),
            None => r is Ok && r.unwrap()@ == decoded_receipt(vote_account.data@),
        },
{
    if !squad_account.owner.same_as(program_id) {
        return Err(SquadError::WrongOwner);
    }
    if !vote_account.owner.same_as(program_id) {
        return Err(SquadError::WrongOwner);
    }
    let receipt = match VoteReceipt::unpack_unchecked(vote_account.data.as_slice()) {
        Ok(receipt) => receipt,
        Err(e) => {
            return Err(e);
        },
    };
    if receipt.is_initialized {
        return Err(SquadError::DuplicateVote);
    }
    Ok(receipt)
}

/// Whether an address with its bump seed is the ledger's derivation for
/// the seeds under the program.
pub open spec fn derived(r: Option<(Address, u8)>, seeds: Seq<Seq<u8>>, program_id: Seq<u8>) -> bool {
    match r {
        Some((a, bump)) => program_address(seeds, program_id) == Some((a@, bump)),
        None => program_address(seeds, program_id) is None,
    }
}

/// Whether an address is the ledger's derivation for the seeds under the
/// program.
pub open spec fn derived_key(r: Option<Address>, seeds: Seq<Seq<u8>>, program_id: Seq<u8>) -> bool {
    match r {
        Some(a) => program_address(seeds, program_id) is Some && program_address(
            seeds,
            program_id,
        ).unwrap().0 == a@,
        None => program_address(seeds, program_id) is None,
    }
}

/// The address alone.
fn key_of(found: Option<(Address, u8)>) -> (r: Option<Address>)
    ensures
        forall|seeds: Seq<Seq<u8>>, program_id: Seq<u8>|
            derived(found, seeds, program_id) ==> #[trigger] derived_key(r, seeds, program_id),
{
    match found {
        Some((a, _)) => Some(a),
        None => None,
    }
}

/// The bytes of a text.
fn bytes_of(text: &str) -> (v: Vec<u8>)
    ensures
        v@ == text_bytes(text@),
{
    slice_to_vec(text.as_bytes())
}

/// Derives the address for two seeds.
fn derive2(a: Vec<u8>, b: Vec<u8>, program_id: &Address) -> (r: Option<(Address, u8)>)
    ensures
        derived(r, seq![a@, b@], program_id@),
{
    let mut seeds: Vec<Vec<u8>> = Vec::new();
    seeds.push(a);
    seeds.push(b);
    assert(seeds_view(seeds@) =~= seq![a@, b@]);
    try_find_program_address(&seeds, program_id)
}

/// Derives the address for three seeds.
fn derive3(a: Vec<u8>, b: Vec<u8>, c: Vec<u8>, program_id: &Address) -> (r: Option<(Address, u8)>)
    ensures
        derived(r, seq![a@, b@, c@], program_id@),
{
    let mut seeds: Vec<Vec<u8>> = Vec::new();
    seeds.push(a);
    seeds.push(b);
    seeds.push(c);
    assert(seeds_view(seeds@) =~= seq![a@, b@, c@]);
    try_find_program_address(&seeds, program_id)
}

/// The seeds of a squad's address.
pub open spec fn squad_seeds(creator: Seq<u8>, random_id: Seq<char>) -> Seq<Seq<u8>> {
    seq![creator, text_bytes(random_id), text_bytes("!squad"@)]
}

/// The seeds of the address of a squad's governance mint.
pub open spec fn mint_seeds(squad: Seq<u8>) -> Seq<Seq<u8>> {
    seq![squad, text_bytes("!squadmint"@)]
}

/// The seeds of the address of a squad's member mint.
pub open spec fn member_mint_seeds(squad: Seq<u8>) -> Seq<Seq<u8>> {
    seq![squad, text_bytes("!squadmembermint"@)]
}

/// The seeds of the address of a squad's treasury.
pub open spec fn sol_seeds(squad: Seq<u8>) -> Seq<Seq<u8>> {
    seq![squad, text_bytes("!squadsol"@)]
}

/// The seeds of the address of a treasury's wrapped-native account.
pub open spec fn wsol_seeds(sol: Seq<u8>, random_id: Seq<char>) -> Seq<Seq<u8>> {
    seq![sol, text_bytes(random_id), text_bytes("!wsol"@)]
}

/// The seeds of the address of a member's equity account.
pub open spec fn equity_seeds(member: Seq<u8>, squad: Seq<u8>) -> Seq<Seq<u8>> {
    seq![member, squad, text_bytes("!memberequity"@)]
}

/// The seeds of the address of a squad's own equity account.
pub open spec fn squad_equity_seeds(squad: Seq<u8>) -> Seq<Seq<u8>> {
    seq![squad, text_bytes("!squadequity"@)]
}

/// The seeds of the address of a member's vote source.
pub open spec fn source_seeds(member: Seq<u8>) -> Seq<Seq<u8>> {
    seq![member, text_bytes("!source"@)]
}

/// The seeds of the address of the vote on admitting a member.
pub open spec fn add_member_vote_seeds(member: Seq<u8>) -> Seq<Seq<u8>> {
    seq![member, text_bytes("!addmember"@)]
}

/// A byte in lower case: the letters A to Z move to a to z.
pub open spec fn lower(b: u8) -> u8 {
    if 65 <= b <= 90 {
        (b + 32) as u8
    } else {
        b
    }
}

/// The seeds of the address of a squad's token account for a symbol, which
/// counts in lower case.
pub open spec fn token_seeds(squad: Seq<u8>, symbol: Seq<char>) -> Seq<Seq<u8>> {
    seq![squad, text_bytes("!squad"@) + text_bytes(symbol).map_values(|b: u8| lower(b))]
}

/// The seeds of a proposal's address: the squad and the proposal's index.
pub open spec fn proposal_seeds(squad: Seq<u8>, nonce: u32) -> Seq<Seq<u8>> {
    seq![squad, spec_u32_to_le_bytes(nonce), text_bytes("!proposal"@)]
}

/// The seeds of a receipt's address: the proposal and the voter.
pub open spec fn vote_seeds(proposal: Seq<u8>, member: Seq<u8>) -> Seq<Seq<u8>> {
    seq![proposal, member, text_bytes("!vote"@)]
}

/// A squad's address with its bump seed.
pub fn get_squad_address_with_seed(
    creator_address: &Address,
    random_id: &String,
    program_id: &Address,
) -> (r: Option<(Address, u8)>)
    ensures
        derived(r, squad_seeds(creator_address@, random_id@), program_id@),
{
    derive3(
        creator_address.to_vec(),
        bytes_of(random_id.as_str()),
        bytes_of("!squad"),
        program_id,
    )
}

/// The address of a squad's governance mint with its bump seed.
pub fn get_mint_address_with_seed(squad_address: &Address, program_id: &Address) -> (r: Option<
    (Address, u8),
>)
    ensures
        derived(r, mint_seeds(squad_address@), program_id@),
{
    derive2(squad_address.to_vec(), bytes_of("!squadmint"), program_id)
}

/// The address of a squad's member mint with its bump seed.
pub fn get_member_mint_address_with_seed(squad_address: &Address, program_id: &Address) -> (r:
    Option<(Address, u8)>)
    ensures
        derived(r, member_mint_seeds(squad_address@), program_id@),
{
    derive2(squad_address.to_vec(), bytes_of("!squadmembermint"), program_id)
}

/// The address of a squad's treasury with its bump seed.
pub fn get_sol_address_with_seed(squad_address: &Address, program_id: &Address) -> (r: Option<
    (Address, u8),
>)
    ensures
        derived(r, sol_seeds(squad_address@), program_id@),
{
    derive2(squad_address.to_vec(), bytes_of("!squadsol"), program_id)
}

/// The address of a treasury's wrapped-native account with its bump seed.
pub fn get_wsol_address_with_seed(sol_address: &Address, random_id: &String, program_id: &Address) -> (r:
    Option<(Address, u8)>)
    ensures
        derived(r, wsol_seeds(sol_address@, random_id@), program_id@),
{
    derive3(sol_address.to_vec(), bytes_of(random_id.as_str()), bytes_of("!wsol"), program_id)
}

/// The address of a member's equity account with its bump seed.
pub fn get_equity_address_with_seed(
    member_address: &Address,
    squad_address: &Address,
    program_id: &Address,
) -> (r: Option<(Address, u8)>)
    ensures
        derived(r, equity_seeds(member_address@, squad_address@), program_id@),
{
    derive3(
        member_address.to_vec(),
        squad_address.to_vec(),
        bytes_of("!memberequity"),
        program_id,
    )
}

/// The address of a squad's own equity account with its bump seed.
pub fn get_squad_equity_address_with_seed(squad_address: &Address, program_id: &Address) -> (r:
    Option<(Address, u8)>)
    ensures
        derived(r, squad_equity_seeds(squad_address@), program_id@),
{
    derive2(squad_address.to_vec(), bytes_of("!squadequity"), program_id)
}

/// The address of a member's vote source with its bump seed.
pub fn get_source_address_with_seed(member_address: &Address, program_id: &Address) -> (r: Option<
    (Address, u8),
>)
    ensures
        derived(r, source_seeds(member_address@), program_id@),
{
    derive2(member_address.to_vec(), bytes_of("!source"), program_id)
}

/// The address of the vote on admitting a member with its bump seed.
pub fn get_add_member_vote_address_with_seed(member_address: &Address, program_id: &Address) -> (r:
    Option<(Address, u8)>)
    ensures
        derived(r, add_member_vote_seeds(member_address@), program_id@),
{
    derive2(member_address.to_vec(), bytes_of("!addmember"), program_id)
}

/// The address of a squad's token account for a symbol with its bump seed.
pub fn get_token_address_with_seed(squad_address: &Address, program_id: &Address, symbol: &String) -> (r:
    Option<(Address, u8)>)
    ensures
        derived(r, token_seeds(squad_address@, symbol@), program_id@),
{
    let mut seed = bytes_of("!squad");
    let letters = symbol.as_str().as_bytes();
    let ghost head = seed@;
    let mut i: usize = 0;
    while i < letters.len()
        invariant
            i <= letters@.len(),
            seed@ == head + letters@.take(i as int).map_values(|b: u8| lower(b)),
        decreases letters@.len() - i,
    {
        let b = letters[i];
        let low: u8 = if 65 <= b && b <= 90 {
            b + 32
        } else {
            b
        };
        seed.push(low);
        assert(seed@ =~= head + letters@.take(i as int + 1).map_values(|b: u8| lower(b)));
        i += 1;
    }
    assert(letters@.take(letters@.len() as int) == letters@);
    derive2(squad_address.to_vec(), seed, program_id)
}

/// A proposal's address with its bump seed.
pub fn get_proposal_address_with_seed(squad_address: &Address, program_id: &Address, nonce: &u32) -> (r:
    Option<(Address, u8)>)
    ensures
        derived(r, proposal_seeds(squad_address@, *nonce), program_id@),
{
    derive3(squad_address.to_vec(), u32_to_le_bytes(*nonce), bytes_of("!proposal"), program_id)
}

/// A receipt's address with its bump seed.
pub fn get_vote_address_with_seed(
    proposal_address: &Address,
    program_id: &Address,
    member_address: &Address,
) -> (r: Option<(Address, u8)>)
    ensures
        derived(r, vote_seeds(proposal_address@, member_address@), program_id@),
{
    derive3(proposal_address.to_vec(), member_address.to_vec(), bytes_of("!vote"), program_id)
}

/// A squad's address.
pub fn get_squad_address(creator_address: &Address, random_id: &String, program_id: &Address) -> (r:
    Option<Address>)
    ensures
        derived_key(r, squad_seeds(creator_address@, random_id@), program_id@),
{
    key_of(get_squad_address_with_seed(creator_address, random_id, program_id))
}

/// The address of a squad's governance mint.
pub fn get_mint_address(squad_address: &Address, program_id: &Address) -> (r: Option<Address>)
    ensures
        derived_key(r, mint_seeds(squad_address@), program_id@),
{
    key_of(get_mint_address_with_seed(squad_address, program_id))
}

/// The address of a squad's member mint.
pub fn get_member_mint_address(squad_address: &Address, program_id: &Address) -> (r: Option<Address>)
    ensures
        derived_key(r, member_mint_seeds(squad_address@), program_id@),
{
    key_of(get_member_mint_address_with_seed(squad_address, program_id))
}

/// The address of a squad's treasury.
pub fn get_sol_address(squad_address: &Address, program_id: &Address) -> (r: Option<Address>)
    ensures
        derived_key(r, sol_seeds(squad_address@), program_id@),
{
    key_of(get_sol_address_with_seed(squad_address, program_id))
}

/// The address of a treasury's wrapped-native account.
pub fn get_wsol_address(sol_address: &Address, random_id: &String, program_id: &Address) -> (r: Option<
    Address,
>)
    ensures
        derived_key(r, wsol_seeds(sol_address@, random_id@), program_id@),
{
    key_of(get_wsol_address_with_seed(sol_address, random_id, program_id))
}

/// The address of the vote on admitting a member.
pub fn get_add_member_vote_address(member_address: &Address, program_id: &Address) -> (r: Option<
    Address,
>)
    ensures
        derived_key(r, add_member_vote_seeds(member_address@), program_id@),
{
    key_of(get_add_member_vote_address_with_seed(member_address, program_id))
}

/// The address of a member's equity account.
pub fn get_equity_address(member_address: &Address, squad_address: &Address, program_id: &Address) -> (r:
    Option<Address>)
    ensures
        derived_key(r, equity_seeds(member_address@, squad_address@), program_id@),
{
    key_of(get_equity_address_with_seed(member_address, squad_address, program_id))
}

/// The address of a squad's own equity account.
pub fn get_squad_equity_address(squad_address: &Address, program_id: &Address) -> (r: Option<Address>)
    ensures
        derived_key(r, squad_equity_seeds(squad_address@), program_id@),
{
    key_of(get_squad_equity_address_with_seed(squad_address, program_id))
}

/// The address of a member's vote source.
pub fn get_source_address(member_address: &Address, program_id: &Address) -> (r: Option<Address>)
    ensures
        derived_key(r, source_seeds(member_address@), program_id@),
{
    key_of(get_source_address_with_seed(member_address, program_id))
}

/// The address of a squad's token account for a symbol.
pub fn get_token_address(squad_address: &Address, program_id: &Address, symbol: &String) -> (r: Option<
    Address,
>)
    ensures
        derived_key(r, token_seeds(squad_address@, symbol@), program_id@),
{
    key_of(get_token_address_with_seed(squad_address, program_id, symbol))
}

/// A proposal's address.
pub fn get_proposal_address(squad_address: &Address, program_id: &Address, nonce: &u32) -> (r: Option<
    Address,
>)
    ensures
        derived_key(r, proposal_seeds(squad_address@, *nonce), program_id@),
{
    key_of(get_proposal_address_with_seed(squad_address, program_id, nonce))
}

/// A receipt's address.
pub fn get_vote_address(proposal_account: &Address, program_id: &Address, voter_address: &Address) -> (r:
    Option<Address>)
    ensures
        derived_key(r, vote_seeds(proposal_account@, voter_address@), program_id@),
{
    key_of(get_vote_address_with_seed(proposal_account, program_id, voter_address))
}

} // verus!
