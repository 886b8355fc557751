//! Voting on a proposal of a team-coordination squad.

use vstd::prelude::*;
use crate::account::{provision, provision_plan, AccountSnapshot, Action, Environment, Signer};
use crate::address::{token_program_bytes, token_program_id, Address};
use crate::ballot::{cast_vote, team_vote_applied, vote_refusal};
use crate::error::SquadError;
use crate::processor::{address_is, bump_if_matches, bump_of, Outcome};
use crate::state::proposal::decoded_proposal;
use crate::state::squad::{decoded_squad, TEAM_COORDINATION};
use crate::state::vote::{receipt_of, VOTE_RECEIPT_TOTAL_BYTES};
use crate::token::{mint_supply, mint_valid, token_account_valid, token_amount, unpack_mint_supply, unpack_token_account};
use crate::{equity_seeds, get_equity_address_with_seed, get_proposal, get_squad, get_vote_address_with_seed, proposal_refusal, squad_refusal, vote_seeds};

verus! {

/// Why a vote is refused, if it is. The accounts are, in order: the voter,
/// the squad, the squad's mint, the proposal, the voter's equity account,
/// the voter's receipt, the system program, the rent account and this
/// program. The checks stand in the order in which they are made.
pub open spec fn cast_vote_refusal(
    accounts: Seq<AccountSnapshot>,
    program_id: Address,
    vote: u8,
    env: Environment,
) -> Option<SquadError> {
    if accounts.len() < 9 {
        Some(SquadError::MissingAccount)
    } else if !accounts[0].is_signer {
        Some(SquadError::MissingSignature)
    } else if accounts[2].owner@ != token_program_bytes() {
        Some(SquadError::WrongOwner)
    } else if accounts[8].key@ != program_id@ {
        Some(SquadError::WrongProgram)
    } else if squad_refusal(program_id@, accounts[1]) is Some {
        squad_refusal(program_id@, accounts[1])
    } else if proposal_refusal(program_id@, accounts[1], accounts[3]) is Some {
        proposal_refusal(program_id@, accounts[1], accounts[3])
    } else if accounts[2].key@ != decoded_squad(accounts[1].data@).mint_address {
        Some(SquadError::AddressMismatch)
    } else if !address_is(
        equity_seeds(accounts[0].key@, accounts[1].key@),
        program_id@,
        accounts[4].key@,
    ) {
        Some(SquadError::AddressMismatch)
    } else if !address_is(vote_seeds(accounts[3].key@, accounts[0].key@), program_id@, accounts[5].key@) {
        Some(SquadError::AddressMismatch)
    } else if accounts[5].data@.len() > 0 {
        Some(SquadError::DuplicateVote)
    } else if !token_account_valid(accounts[4].data@) {
        Some(SquadError::MalformedRecord)
    } else if !mint_valid(accounts[2].data@) {
        Some(SquadError::MalformedRecord)
    } else {
        vote_refusal(
            decoded_squad(accounts[1].data@),
            decoded_proposal(accounts[3].data@),
            TEAM_COORDINATION,
            false,
            accounts[0].key@,
            vote,
            token_amount(accounts[4].data@),
            env.now,
        )
    }
}

/// What a vote comes to: the refusal, or the proposal with the vote counted,
/// the voter's receipt, and the actions that bring the receipt's account
/// into existence.
pub open spec fn cast_vote_result(
    accounts: Seq<AccountSnapshot>,
    program_id: Address,
    vote: u8,
    env: Environment,
    r: Result<Outcome, SquadError>,
) -> bool {
    match cast_vote_refusal(accounts, program_id, vote, env) {
        Some(e) => r == Err::<Outcome, SquadError>(e),
        None => {
            &&& r is Ok
            &&& r.unwrap().squad is None
            &&& r.unwrap().proposal is Some
            &&& r.unwrap().proposal.unwrap()@ == team_vote_applied(
                decoded_squad(accounts[1].data@),
                decoded_proposal(accounts[3].data@),
                accounts[0].key@,
                vote,
                token_amount(accounts[4].data@),
                mint_supply(accounts[2].data@),
            )
            &&& r.unwrap().receipt is Some
            &&& r.unwrap().receipt.unwrap()@ == receipt_of(
                accounts[3].key@,
                vote,
                accounts[0].key@,
                env.now,
                token_amount(accounts[4].data@),
            )
            &&& r.unwrap().swap is None
            &&& r.unwrap().actions@ == provision_plan(
                accounts[0].key,
                accounts[5].key,
                accounts[5].lamports,
                env.rent_receipt,
                VOTE_RECEIPT_TOTAL_BYTES as u64,
                program_id,
                Signer::Receipt {
                    voter: accounts[0].key,
                    bump: bump_of(
                        vote_seeds(accounts[3].key@, accounts[0].key@),
                        program_id@,
                    ),
                },
            )
        },
    }
}

/// Votes on a proposal of a team-coordination squad. The vote weighs what
/// the voter's equity account holds, out of the supply of the squad's mint.
/// The ledger is to bring the receipt's account into existence; then the
/// receipt and the proposal are persisted.
pub fn process_cast_vote(
    accounts: &[AccountSnapshot],
    program_id: &Address,
    vote: u8,
    env: &Environment,
) -> (r: Result<Outcome, SquadError>)
    ensures
        cast_vote_result(accounts@, *program_id, vote, *env, r),
{
    if accounts.len() < 9 {
        return Err(SquadError::MissingAccount);
    }
    let initializer = &accounts[0];
    let squad_account = &accounts[1];
    let squad_mint_account = &accounts[2];
    let proposal_account = &accounts[3];
    let member_governance_account = &accounts[4];
    let vote_account = &accounts[5];
    let squads_program_account = &accounts[8];
    if !initializer.is_signer {
        return Err(SquadError::MissingSignature);
    }
    if !squad_mint_account.owner.same_as(&token_program_id()) {
        return Err(SquadError::WrongOwner);
    }
    if !squads_program_account.key.same_as(program_id) {
        return Err(SquadError::WrongProgram);
    }
    let squad = match get_squad(program_id, squad_account) {
        Ok(squad) => squad,
        Err(e) => {
            return Err(e);
        },
    };
    let mut proposal = match get_proposal(program_id, squad_account, proposal_account) {
        Ok(proposal) => proposal,
        Err(e) => {
            return Err(e);
        },
    };
    if !squad_mint_account.key.same_as(&squad.mint_address) {
        return Err(SquadError::AddressMismatch);
    }
    let equity = get_equity_address_with_seed(&initializer.key, &squad_account.key, program_id);
    if bump_if_matches(equity, &member_governance_account.key).is_none() {
        return Err(SquadError::AddressMismatch);
    }
    let receipt_address = get_vote_address_with_seed(
        &proposal_account.key,
        program_id,
        &initializer.key,
    );
    let bump = match bump_if_matches(receipt_address, &vote_account.key) {
        Some(bump) => bump,
        None => {
            return Err(SquadError::AddressMismatch);
        },
    };
    if vote_account.data.len() > 0 {
        return Err(SquadError::DuplicateVote);
    }
    let weight = match unpack_token_account(member_governance_account.data.as_slice()) {
        Some(account) => account.amount,
        None => {
            return Err(SquadError::MalformedRecord);
        },
    };
    let supply = match unpack_mint_supply(squad_mint_account.data.as_slice()) {
        Some(supply) => supply,
        None => {
            return Err(SquadError::MalformedRecord);
        },
    };
    let receipt = match cast_vote(
        &squad,
        &mut proposal,
        false,
        &proposal_account.key,
        &initializer.key,
        vote,
        weight,
        supply,
        env.now,
    ) {
        Ok(receipt) => receipt,
        Err(e) => {
            return Err(e);
        },
    };
    let mut actions: Vec<Action> = Vec::new();
    provision(
        &mut actions,
        &initializer.key,
        &vote_account.key,
        vote_account.lamports,
        env.rent_receipt,
        VOTE_RECEIPT_TOTAL_BYTES as u64,
        program_id,
        Signer::Receipt { voter: initializer.key, bump },
    );
    Ok(Outcome { actions, squad: None, proposal: Some(proposal), receipt: Some(receipt), swap: None })
}

} // verus!
