//! Voting on a proposal of a multisig.

use vstd::prelude::*;
use crate::account::{provision, provision_plan, AccountSnapshot, Action, Environment, Signer};
use crate::address::Address;
use crate::ballot::{cast_multisig_vote, multisig_vote_applied, vote_refusal};
use crate::error::SquadError;
use crate::processor::{address_is, bump_if_matches, bump_of, Outcome};
use crate::state::proposal::decoded_proposal;
use crate::state::squad::{decoded_squad, MULTISIG};
use crate::state::vote::{receipt_of, VOTE_RECEIPT_TOTAL_BYTES};
use crate::{get_proposal, get_squad, get_vote_address_with_seed, proposal_refusal, squad_refusal, vote_seeds};

verus! {

/// Why a vote in a multisig is refused, if it is. The accounts are, in
/// order: the voter, the squad, the proposal, the voter's receipt, the
/// system program, the rent account and this program. The checks stand in
/// the order in which they are made.
pub open spec fn cast_multisig_vote_refusal(
    accounts: Seq<AccountSnapshot>,
    program_id: Address,
    vote: u8,
    env: Environment,
) -> Option<SquadError> {
    if accounts.len() < 7 {
        Some(SquadError::MissingAccount)
    } else if !accounts[0].is_signer {
        Some(SquadError::MissingSignature)
    } else if accounts[6].key@ != program_id@ {
        Some(SquadError::WrongProgram)
    } else if squad_refusal(program_id@, accounts[1]) is Some {
        squad_refusal(program_id@, accounts[1])
    } else if proposal_refusal(program_id@, accounts[1], accounts[2]) is Some {
        proposal_refusal(program_id@, accounts[1], accounts[2])
    } else if !address_is(vote_seeds(accounts[2].key@, accounts[0].key@), program_id@, accounts[3].key@) {
        Some(SquadError::AddressMismatch)
    } else if accounts[3].data@.len() > 0 {
        Some(SquadError::DuplicateVote)
    } else {
        vote_refusal(
            decoded_squad(accounts[1].data@),
            decoded_proposal(accounts[2].data@),
            MULTISIG,
            false,
            accounts[0].key@,
            vote,
            1,
            env.now,
        )
    }
}

/// What a vote in a multisig comes to: the refusal, or the proposal with
/// the vote counted, the voter's receipt, and the actions that bring the
/// receipt's account into existence.
pub open spec fn cast_multisig_vote_result(
    accounts: Seq<AccountSnapshot>,
    program_id: Address,
    vote: u8,
    env: Environment,
    r: Result<Outcome, SquadError>,
) -> bool {
    match cast_multisig_vote_refusal(accounts, program_id, vote, env) {
        Some(e) => r == Err::<Outcome, SquadError>(e),
        None => {
            &&& r is Ok
            &&& r.unwrap().squad is None
            &&& r.unwrap().proposal is Some
            &&& r.unwrap().proposal.unwrap()@ == multisig_vote_applied(
                decoded_squad(accounts[1].data@),
                decoded_proposal(accounts[2].data@),
                accounts[0].key@,
                vote,
            )
            &&& r.unwrap().receipt is Some
            &&& r.unwrap().receipt.unwrap()@ == receipt_of(
                accounts[2].key@,
                vote,
                accounts[0].key@,
                env.now,
                1,
            )
            &&& r.unwrap().swap is None
            &&& r.unwrap().actions@ == provision_plan(
                accounts[0].key,
                accounts[3].key,
                accounts[3].lamports,
                env.rent_receipt,
                VOTE_RECEIPT_TOTAL_BYTES as u64,
                program_id,
                Signer::Receipt {
                    voter: accounts[0].key,
                    bump: bump_of(
                        vote_seeds(accounts[2].key@, accounts[0].key@),
                        program_id@,
                    ),
                },
            )
        },
    }
}

/// Votes on a proposal of a multisig, with a weight of one. The ledger is
/// to bring the receipt's account into existence; then the receipt and the
/// proposal are persisted.
pub fn process_cast_multisig_vote(
    accounts: &[AccountSnapshot],
    program_id: &Address,
    vote: u8,
    env: &Environment,
) -> (r: Result<Outcome, SquadError>)
    ensures
        cast_multisig_vote_result(accounts@, *program_id, vote, *env, r),
{
    if accounts.len() < 7 {
        return Err(SquadError::MissingAccount);
    }
    let initializer = &accounts[0];
    let squad_account = &accounts[1];
    let proposal_account = &accounts[2];
    let vote_account = &accounts[3];
    let squads_program_account = &accounts[6];
    if !initializer.is_signer {
        return Err(SquadError::MissingSignature);
    }
    if !squads_program_account.key.same_as(program_id) {
        return Err(SquadError::WrongProgram);
    }
    let squad = match get_squad(program_id, squad_account) {
        Ok(squad) => squad,
        Err(e) => {
            return Err(e);
        },
    };
    let mut proposal = match get_proposal(program_id, squad_account, proposal_account) {
        Ok(proposal) => proposal,
        Err(e) => {
            return Err(e);
        },
    };
    let receipt_address = get_vote_address_with_seed(
        &proposal_account.key,
        program_id,
        &initializer.key,
    );
    let bump = match bump_if_matches(receipt_address, &vote_account.key) {
        Some(bump) => bump,
        None => {
            return Err(SquadError::AddressMismatch);
        },
    };
    if vote_account.data.len() > 0 {
        return Err(SquadError::DuplicateVote);
    }
    let receipt = match cast_multisig_vote(
        &squad,
        &mut proposal,
        false,
        &proposal_account.key,
        &initializer.key,
        vote,
        env.now,
    ) {
        Ok(receipt) => receipt,
        Err(e) => {
            return Err(e);
        },
    };
    let mut actions: Vec<Action> = Vec::new();
    provision(
        &mut actions,
        &initializer.key,
        &vote_account.key,
        vote_account.lamports,
        env.rent_receipt,
        VOTE_RECEIPT_TOTAL_BYTES as u64,
        program_id,
        Signer::Receipt { voter: initializer.key, bump },
    );
    Ok(Outcome { actions, squad: None, proposal: Some(proposal), receipt: Some(receipt), swap: None })
}

} // verus!
