//! What the engine reads of the token program's accounts.

use vstd::prelude::*;
use vstd::bytes::*;
use solana_program::program_pack::Pack;
use crate::address::Address;

verus! {

/// The width of a token account.
pub const TOKEN_ACCOUNT_BYTES: usize = 165;

/// The width of a mint.
pub const MINT_BYTES: usize = 82;

/// What the engine reads of a token account.
#[derive(Clone, Copy, Debug, PartialEq, Eq)]
pub struct TokenAccount {
    pub mint: Address,
    pub owner: Address,
    pub amount: u64,
}

/// Whether four bytes are the tag of an optional field: 0 or 1, least
/// significant byte first.
pub open spec fn option_tag(tag: Seq<u8>) -> bool {
    tag == seq![0u8, 0u8, 0u8, 0u8] || tag == seq![1u8, 0u8, 0u8, 0u8]
}

/// Whether bytes hold a token account: its width, a state that is one of
/// three, and well-formed tags before the delegate, the native reserve and
/// the close authority.
pub open spec fn token_account_valid(data: Seq<u8>) -> bool {
    &&& data.len() == TOKEN_ACCOUNT_BYTES
    &&& option_tag(data.subrange(72, 76))
    &&& data[108] <= 2
    &&& option_tag(data.subrange(109, 113))
    &&& option_tag(data.subrange(129, 133))
}

/// Whether bytes hold a mint: its width, a flag that is 0 or 1, and
/// well-formed tags before the two authorities.
pub open spec fn mint_valid(data: Seq<u8>) -> bool {
    &&& data.len() == MINT_BYTES
    &&& option_tag(data.subrange(0, 4))
    &&& data[45] <= 1
    &&& option_tag(data.subrange(46, 50))
}

/// The balance that the bytes of a token account record.
pub open spec fn token_amount(data: Seq<u8>) -> u64 {
    spec_u64_from_le_bytes(data.subrange(64, 72))
}

/// The supply that the bytes of a mint record.
pub open spec fn mint_supply(data: Seq<u8>) -> u64 {
    spec_u64_from_le_bytes(data.subrange(36, 44))
}

/// `Account::unpack_unchecked` of spl_token: bytes of a token account's
/// width whose state and tags are well-formed give the mint in the first 32
/// bytes, the owner in the next 32 and the amount in the eight after them,
/// least significant byte first; any other bytes give nothing.
#[verifier::external_body]
pub(crate) fn unpack_token_account(data: &[u8]) -> (r: Option<TokenAccount>)
    ensures
        r is Some <==> token_account_valid(data@),
        r is Some ==> r.unwrap().mint@ == data@.subrange(0, 32),
        r is Some ==> r.unwrap().owner@ == data@.subrange(32, 64),
        r is Some ==> r.unwrap().amount == token_amount(data@),
{
    let account = spl_token::state::Account::unpack_unchecked(data).ok()?;
    Some(
        TokenAccount {
            mint: Address { bytes: account.mint.to_bytes() },
            owner: Address { bytes: account.owner.to_bytes() },
            amount: account.amount,
        },
    )
}

/// `Mint::unpack_unchecked` of spl_token: bytes of a mint's width whose flag
/// and tags are well-formed give the supply held in bytes 36 to 44, least
/// significant byte first; any other bytes give nothing.
#[verifier::external_body]
pub(crate) fn unpack_mint_supply(data: &[u8]) -> (r: Option<u64>)
    ensures
        r is Some <==> mint_valid(data@),
        r is Some ==> r.unwrap() == mint_supply(data@),
{
    let mint = spl_token::state::Mint::unpack_unchecked(data).ok()?;
    Some(mint.supply)
}

} // verus!
