//! Executing a decided proposal of a multisig.

use vstd::prelude::*;
use crate::account::{AccountSnapshot, Environment};
use crate::address::Address;
use crate::error::SquadError;
use crate::processor::process_execute_proposal::{execution_result, process_execution};
use crate::processor::Outcome;
use crate::state::squad::{AllocationType, MULTISIG};

verus! {

/// Executes a proposal of a multisig. The accounts are those of an
/// execution without a mint. The ledger is to perform the actions of the
/// effect; then the proposal, marked as executed, and the squad are
/// persisted together.
pub fn process_execute_multisig_proposal(
    accounts: &[AccountSnapshot],
    random_id: String,
    program_id: &Address,
    env: &Environment,
) -> (r: Result<Outcome, SquadError>)
    ensures
        execution_result(accounts@, random_id@, *program_id, *env, MULTISIG, r),
{
    process_execution(accounts, &random_id, program_id, env, AllocationType::Multisig)
}

} // verus!
