//! Executing a decided proposal.

use vstd::prelude::*;
use crate::account::{provision, provision_plan, AccountSnapshot, Action, Environment, Signer};
use crate::address::{
    associated_token_program_bytes, associated_token_program_id, associated_token_seeds,
    get_associated_token_address, token_program_bytes, token_program_id, Address,
};
use crate::dispatcher::{check_execution, execute, execution_refusal, proposal_after, squad_after};
use crate::error::SquadError;
use crate::processor::process_execute_swap::{
    check_swap_routing, is_swap_of, process_execute_swap, routing_refusal, shift, swap_actions,
    swap_refusal,
};
use crate::processor::{address_is, bump_if_matches, bump_of, Instruction, Outcome};
use crate::state::proposal::{decoded_proposal, Proposal, ProposalType, ProposalView};
use crate::state::squad::{decoded_squad, AllocationType, Squad, SquadView, TEAM_COORDINATION};
use crate::token::{
    mint_supply, mint_valid, token_account_valid, token_amount, unpack_mint_supply,
    unpack_token_account, TOKEN_ACCOUNT_BYTES,
};
use crate::{
    equity_seeds, get_equity_address_with_seed, get_mint_address_with_seed, get_proposal,
    get_sol_address_with_seed, get_squad, mint_seeds, proposal_refusal, sol_seeds, squad_refusal,
};

verus! {

/// The squad that the accounts of an execution hold.
pub open spec fn squad_of(accounts: Seq<AccountSnapshot>) -> SquadView {
    decoded_squad(accounts[1].data@)
}

/// The proposal that the accounts of an execution hold.
pub open spec fn proposal_of(accounts: Seq<AccountSnapshot>, mode: u8) -> ProposalView {
    decoded_proposal(accounts[2 + shift(mode)].data@)
}

/// Why the accounts that every execution names are refused, if they are.
/// They are, in order: the executor, the squad, in a team-coordination
/// squad its mint, the proposal, the proposal's source and destination, the
/// system program, the token program, the associated-token-account program
/// and the rent account. A proposal that was executed is refused before
/// anything else is looked at. The checks stand in the order in which they
/// are made.
pub open spec fn common_refusal(accounts: Seq<AccountSnapshot>, program_id: Address, mode: u8) -> Option<
    SquadError,
> {
    let k = shift(mode);
    if accounts.len() < 9 + k {
        Some(SquadError::MissingAccount)
    } else if !accounts[0].is_signer {
        Some(SquadError::MissingSignature)
    } else if squad_refusal(program_id@, accounts[1]) is Some {
        squad_refusal(program_id@, accounts[1])
    } else if proposal_refusal(program_id@, accounts[1], accounts[2 + k]) is Some {
        proposal_refusal(program_id@, accounts[1], accounts[2 + k])
    } else if proposal_of(accounts, mode).executed {
        Some(SquadError::AlreadyExecuted)
    } else if k == 1 && squad_of(accounts).mint_address != accounts[2].key@ {
        Some(SquadError::AddressMismatch)
    } else if accounts[6 + k].key@ != token_program_bytes() {
        Some(SquadError::WrongProgram)
    } else if k == 1 && accounts[2].owner@ != token_program_bytes() {
        Some(SquadError::WrongOwner)
    } else if accounts[7 + k].key@ != associated_token_program_bytes() {
        Some(SquadError::WrongProgram)
    } else if accounts[3 + k].key@ != proposal_of(accounts, mode).execution_source {
        Some(SquadError::AddressMismatch)
    } else if accounts[4 + k].key@ != proposal_of(accounts, mode).execution_destination {
        Some(SquadError::AddressMismatch)
    } else if k == 1 && !mint_valid(accounts[2].data@) {
        Some(SquadError::MalformedRecord)
    } else {
        None
    }
}

/// The live supply of the governance token; a multisig has none.
pub open spec fn live_supply(accounts: Seq<AccountSnapshot>, mode: u8) -> u64 {
    if shift(mode) == 1 {
        mint_supply(accounts[2].data@)
    } else {
        0
    }
}

/// Whether the effect touches a member's equity account, which only a
/// team-coordination squad has.
pub open spec fn touches_equity(mode: u8, kind: ProposalType) -> bool {
    shift(mode) == 1 && (kind == ProposalType::AddMember || kind == ProposalType::RemoveMember
        || kind == ProposalType::MintMemberToken)
}

/// Why the accounts that the effect of a proposal names are refused, if
/// they are. They follow the accounts that every execution names.
pub open spec fn effect_accounts_refusal(
    accounts: Seq<AccountSnapshot>,
    program_id: Address,
    random_id: Seq<char>,
    mode: u8,
    kind: ProposalType,
) -> Option<SquadError> {
    let k = shift(mode);
    let squad = squad_of(accounts);
    match kind {
        ProposalType::WithdrawSol => if !address_is(
            sol_seeds(accounts[1].key@),
            program_id@,
            accounts[3 + k].key@,
        ) || squad.sol_account != accounts[3 + k].key@ {
            Some(SquadError::AddressMismatch)
        } else {
            None
        },
        ProposalType::WithdrawSpl => if accounts.len() < 12 + k {
            Some(SquadError::MissingAccount)
        } else if !address_is(sol_seeds(accounts[1].key@), program_id@, accounts[11 + k].key@)
            || squad.sol_account != accounts[11 + k].key@ {
            Some(SquadError::AddressMismatch)
        } else if !address_is(
            associated_token_seeds(accounts[4 + k].key, accounts[10 + k].key),
            associated_token_program_bytes(),
            accounts[9 + k].key@,
        ) {
            Some(SquadError::AddressMismatch)
        } else {
            None
        },
        ProposalType::AddMember | ProposalType::RemoveMember | ProposalType::MintMemberToken => if !touches_equity(
            mode,
            kind,
        ) {
            None
        } else if accounts.len() < (if kind == ProposalType::RemoveMember {
            13int
        } else {
            12int
        }) {
            Some(SquadError::MissingAccount)
        } else if kind == ProposalType::RemoveMember && accounts[12].key@ != squad.sol_account {
            Some(SquadError::AddressMismatch)
        } else if !address_is(mint_seeds(accounts[1].key@), program_id@, accounts[10].key@) {
            Some(SquadError::AddressMismatch)
        } else if !address_is(
            equity_seeds(accounts[5].key@, accounts[1].key@),
            program_id@,
            accounts[11].key@,
        ) {
            Some(SquadError::AddressMismatch)
        } else if kind != ProposalType::AddMember && !token_account_valid(accounts[11].data@) {
            Some(SquadError::MalformedRecord)
        } else {
            None
        },
        ProposalType::Swap => if routing_refusal(accounts, mode, random_id, program_id) is Some {
            routing_refusal(accounts, mode, random_id, program_id)
        } else {
            swap_refusal(accounts, mode, random_id, program_id)
        },
        _ => None,
    }
}

/// Why an execution is refused, if it is: for its accounts, for the state
/// of the squad and the proposal, or for the accounts of its effect, in
/// this order.
pub open spec fn execute_refusal(
    accounts: Seq<AccountSnapshot>,
    program_id: Address,
    random_id: Seq<char>,
    mode: u8,
) -> Option<SquadError> {
    if common_refusal(accounts, program_id, mode) is Some {
        common_refusal(accounts, program_id, mode)
    } else if execution_refusal(
        squad_of(accounts),
        proposal_of(accounts, mode),
        mode,
        accounts[0].key@,
        live_supply(accounts, mode),
    ) is Some {
        execution_refusal(
            squad_of(accounts),
            proposal_of(accounts, mode),
            mode,
            accounts[0].key@,
            live_supply(accounts, mode),
        )
    } else {
        effect_accounts_refusal(
            accounts,
            program_id,
            random_id,
            mode,
            proposal_of(accounts, mode).kind().unwrap(),
        )
    }
}

/// The equity that the member concerned holds, where the effect burns or
/// adjusts it.
pub open spec fn member_balance_at(accounts: Seq<AccountSnapshot>, mode: u8, kind: ProposalType) -> u64 {
    if touches_equity(mode, kind) && kind != ProposalType::AddMember {
        token_amount(accounts[11].data@)
    } else {
        0
    }
}

/// The account that is recorded for a member who is admitted: the member's
/// equity account in a team-coordination squad, the member's own address
/// in a multisig.
pub open spec fn equity_account_at(accounts: Seq<AccountSnapshot>, mode: u8, kind: ProposalType) -> Seq<
    u8,
> {
    if touches_equity(mode, kind) {
        accounts[11].key@
    } else {
        accounts[4 + shift(mode)].key@
    }
}

/// What the ledger is to do for the effect of a proposal.
pub open spec fn execution_actions(
    accounts: Seq<AccountSnapshot>,
    program_id: Address,
    random_id: Seq<char>,
    env: Environment,
    mode: u8,
    kind: ProposalType,
) -> Seq<Action> {
    let k = shift(mode);
    let amount = proposal_of(accounts, mode).execution_amount;
    let treasury = Signer::Treasury { bump: bump_of(sol_seeds(accounts[1].key@), program_id@) };
    let minter = Signer::Mint { bump: bump_of(mint_seeds(accounts[1].key@), program_id@) };
    match kind {
        ProposalType::WithdrawSol => seq![
            Action::Transfer {
                from: accounts[3 + k].key,
                to: accounts[4 + k].key,
                lamports: amount,
                signer: treasury,
            },
        ],
        ProposalType::WithdrawSpl => (if accounts[9 + k].data@.len() == 0 {
            seq![
                Action::CreateAssociatedTokenAccount {
                    payer: accounts[0].key,
                    wallet: accounts[4 + k].key,
                    mint: accounts[10 + k].key,
                },
            ]
        } else {
            Seq::<Action>::empty()
        }) + seq![
            Action::TokenTransfer {
                source: accounts[3 + k].key,
                destination: accounts[9 + k].key,
                authority: accounts[11 + k].key,
                amount,
                signer: treasury,
            },
        ],
        ProposalType::AddMember => if k == 1 {
            let owner = Signer::Equity {
                member: accounts[5].key,
                bump: bump_of(equity_seeds(accounts[5].key@, accounts[1].key@), program_id@),
            };
            provision_plan(
                accounts[0].key,
                accounts[11].key,
                accounts[11].lamports,
                env.rent_token_account,
                TOKEN_ACCOUNT_BYTES as u64,
                accounts[7].key,
                owner,
            ) + seq![
                Action::InitializeTokenAccount {
                    account: accounts[11].key,
                    mint: accounts[10].key,
                    owner: accounts[10].key,
                    signer: owner,
                },
                Action::MintTo {
                    mint: accounts[10].key,
                    account: accounts[11].key,
                    authority: accounts[10].key,
                    amount,
                    signer: minter,
                },
            ]
        } else {
            Seq::<Action>::empty()
        },
        ProposalType::RemoveMember => if k == 1 {
            seq![
                Action::Burn {
                    account: accounts[11].key,
                    mint: accounts[10].key,
                    authority: accounts[10].key,
                    amount: token_amount(accounts[11].data@),
                    signer: minter,
                },
                Action::CloseTokenAccount {
                    account: accounts[11].key,
                    destination: accounts[12].key,
                    authority: accounts[10].key,
                    signer: minter,
                },
            ]
        } else {
            Seq::<Action>::empty()
        },
        ProposalType::MintMemberToken => if k == 1 && token_amount(accounts[11].data@) < amount {
            seq![
                Action::MintTo {
                    mint: accounts[10].key,
                    account: accounts[11].key,
                    authority: accounts[10].key,
                    amount: (amount - token_amount(accounts[11].data@)) as u64,
                    signer: minter,
                },
            ]
        } else if k == 1 && token_amount(accounts[11].data@) > amount {
            seq![
                Action::Burn {
                    account: accounts[11].key,
                    mint: accounts[10].key,
                    authority: accounts[10].key,
                    amount: (token_amount(accounts[11].data@) - amount) as u64,
                    signer: minter,
                },
            ]
        } else {
            Seq::<Action>::empty()
        },
        ProposalType::Swap => swap_actions(accounts, amount, mode, random_id, program_id, env),
        _ => Seq::<Action>::empty(),
    }
}

/// What the accounts of an effect come to: the actions for the ledger, the
/// swap instruction where there is one, the account to record for a member
/// who is admitted, and the equity that the member concerned holds.
struct EffectPlan {
    actions: Vec<Action>,
    swap: Option<Instruction>,
    equity_account: Address,
    member_balance: u64,
}

/// Checks the accounts that the effect of a proposal names and plans what
/// the ledger is to do.
fn plan_effect(
    accounts: &[AccountSnapshot],
    program_id: &Address,
    random_id: &String,
    env: &Environment,
    mode: u8,
    kind: ProposalType,
    squad: &Squad,
    proposal: &Proposal,
) -> (r: Result<EffectPlan, SquadError>)
    requires
        common_refusal(accounts@, *program_id, mode) is None,
        squad@ == squad_of(accounts@),
        proposal@ == proposal_of(accounts@, mode),
    ensures
        match effect_accounts_refusal(accounts@, *program_id, random_id@, mode, kind) {
            Some(e) => r == Err::<EffectPlan, SquadError>(e),
            None => {
                &&& r is Ok
                &&& r.unwrap().actions@ == execution_actions(
                    accounts@,
                    *program_id,
                    random_id@,
                    *env,
                    mode,
                    kind,
                )
                &&& r.unwrap().equity_account@ == equity_account_at(accounts@, mode, kind)
                &&& r.unwrap().member_balance == member_balance_at(accounts@, mode, kind)
                &&& kind == ProposalType::Swap <==> r.unwrap().swap is Some
                &&& kind == ProposalType::Swap ==> is_swap_of(
                    r.unwrap().swap.unwrap(),
                    accounts@,
                    mode,
                    proposal@.execution_amount,
                    proposal@.execution_amount_out,
                )
            },
        },
{
    let k: usize = if mode == TEAM_COORDINATION {
        1
    } else {
        0
    };
    let amount = proposal.execution_amount;
    let destination = &accounts[4 + k];
    let mut actions: Vec<Action> = Vec::new();
    let mut plan = EffectPlan {
        actions: Vec::new(),
        swap: None,
        equity_account: destination.key,
        member_balance: 0,
    };
    match kind {
        ProposalType::WithdrawSol => {
            let source = &accounts[3 + k];
            let sol = get_sol_address_with_seed(&accounts[1].key, program_id);
            let bump = match bump_if_matches(sol, &source.key) {
                Some(bump) => bump,
                None => {
                    return Err(SquadError::AddressMismatch);
                },
            };
            if !squad.sol_account.same_as(&source.key) {
                return Err(SquadError::AddressMismatch);
            }
            actions.push(
                Action::Transfer {
                    from: source.key,
                    to: destination.key,
                    lamports: amount,
                    signer: Signer::Treasury { bump },
                },
            );
        },
        ProposalType::WithdrawSpl => {
            if accounts.len() < 12 + k {
                return Err(SquadError::MissingAccount);
            }
            let source = &accounts[3 + k];
            let destination_ata = &accounts[9 + k];
            let token_mint = &accounts[10 + k];
            let sol_account = &accounts[11 + k];
            let sol = get_sol_address_with_seed(&accounts[1].key, program_id);
            let bump = match bump_if_matches(sol, &sol_account.key) {
                Some(bump) => bump,
                None => {
                    return Err(SquadError::AddressMismatch);
                },
            };
            if !squad.sol_account.same_as(&sol_account.key) {
                return Err(SquadError::AddressMismatch);
            }
            match get_associated_token_address(&destination.key, &token_mint.key) {
                Some(address) => {
                    if !address.same_as(&destination_ata.key) {
                        return Err(SquadError::AddressMismatch);
                    }
                },
                None => {
                    return Err(SquadError::AddressMismatch);
                },
            }
            if destination_ata.data.len() == 0 {
                actions.push(
                    Action::CreateAssociatedTokenAccount {
                        payer: accounts[0].key,
                        wallet: destination.key,
                        mint: token_mint.key,
                    },
                );
            }
            actions.push(
                Action::TokenTransfer {
                    source: source.key,
                    destination: destination_ata.key,
                    authority: sol_account.key,
                    amount,
                    signer: Signer::Treasury { bump },
                },
            );
        },
        ProposalType::AddMember | ProposalType::RemoveMember | ProposalType::MintMemberToken => {
            if k == 1 {
                let removal = match kind {
                    ProposalType::RemoveMember => true,
                    _ => false,
                };
                let admission = match kind {
                    ProposalType::AddMember => true,
                    _ => false,
                };
                let needed: usize = if removal {
                    13
                } else {
                    12
                };
                if accounts.len() < needed {
                    return Err(SquadError::MissingAccount);
                }
                let mint_owner = &accounts[10];
                let member_account = &accounts[11];
                if removal && !accounts[12].key.same_as(&squad.sol_account) {
                    return Err(SquadError::AddressMismatch);
                }
                let mint = get_mint_address_with_seed(&accounts[1].key, program_id);
                let mint_bump = match bump_if_matches(mint, &mint_owner.key) {
                    Some(bump) => bump,
                    None => {
                        return Err(SquadError::AddressMismatch);
                    },
                };
                let equity = get_equity_address_with_seed(
                    &destination.key,
                    &accounts[1].key,
                    program_id,
                );
                let equity_bump = match bump_if_matches(equity, &member_account.key) {
                    Some(bump) => bump,
                    None => {
                        return Err(SquadError::AddressMismatch);
                    },
                };
                let minter = Signer::Mint { bump: mint_bump };
                plan.equity_account = member_account.key;
                if admission {
                    let owner = Signer::Equity { member: destination.key, bump: equity_bump };
                    provision(
                        &mut actions,
                        &accounts[0].key,
                        &member_account.key,
                        member_account.lamports,
                        env.rent_token_account,
                        TOKEN_ACCOUNT_BYTES as u64,
                        &accounts[7].key,
                        owner,
                    );
                    actions.push(
                        Action::InitializeTokenAccount {
                            account: member_account.key,
                            mint: mint_owner.key,
                            owner: mint_owner.key,
                            signer: owner,
                        },
                    );
                    actions.push(
                        Action::MintTo {
                            mint: mint_owner.key,
                            account: member_account.key,
                            authority: mint_owner.key,
                            amount,
                            signer: minter,
                        },
                    );
                } else {
                    let balance = match unpack_token_account(member_account.data.as_slice()) {
                        Some(account) => account.amount,
                        None => {
                            return Err(SquadError::MalformedRecord);
                        },
                    };
                    plan.member_balance = balance;
                    if removal {
                        actions.push(
                            Action::Burn {
                                account: member_account.key,
                                mint: mint_owner.key,
                                authority: mint_owner.key,
                                amount: balance,
                                signer: minter,
                            },
                        );
                        actions.push(
                            Action::CloseTokenAccount {
                                account: member_account.key,
                                destination: accounts[12].key,
                                authority: mint_owner.key,
                                signer: minter,
                            },
                        );
                    } else if balance < amount {
                        actions.push(
                            Action::MintTo {
                                mint: mint_owner.key,
                                account: member_account.key,
                                authority: mint_owner.key,
                                amount: amount - balance,
                                signer: minter,
                            },
                        );
                    } else if balance > amount {
                        actions.push(
                            Action::Burn {
                                account: member_account.key,
                                mint: mint_owner.key,
                                authority: mint_owner.key,
                                amount: balance - amount,
                                signer: minter,
                            },
                        );
                    }
                }
            }
        },
        ProposalType::Swap => {
            match check_swap_routing(accounts, mode, random_id, program_id) {
                Ok(()) => {},
                Err(e) => {
                    return Err(e);
                },
            }
            let (planned, instruction) = match process_execute_swap(
                accounts,
                amount,
                proposal.execution_amount_out,
                mode,
                random_id,
                program_id,
                env,
            ) {
                Ok(planned) => planned,
                Err(e) => {
                    return Err(e);
                },
            };
            actions = planned;
            plan.swap = Some(instruction);
        },
        _ => {},
    }
    assert(actions@ =~= execution_actions(accounts@, *program_id, random_id@, *env, mode, kind));
    plan.actions = actions;
    Ok(plan)
}

/// What an execution comes to: the refusal, or the squad and the proposal
/// after it, the actions of the effect, and the swap instruction where the
/// effect is a swap.
pub open spec fn execution_result(
    accounts: Seq<AccountSnapshot>,
    random_id: Seq<char>,
    program_id: Address,
    env: Environment,
    mode: u8,
    r: Result<Outcome, SquadError>,
) -> bool {
    match execute_refusal(accounts, program_id, random_id, mode) {
        Some(e) => r == Err::<Outcome, SquadError>(e),
        None => {
            let kind = proposal_of(accounts, mode).kind().unwrap();
            &&& r is Ok
            &&& r.unwrap().receipt is None
            &&& r.unwrap().squad is Some
            &&& r.unwrap().squad.unwrap()@ == squad_after(
                squad_of(accounts),
                proposal_of(accounts, mode),
                equity_account_at(accounts, mode, kind),
                member_balance_at(accounts, mode, kind),
            )
            &&& r.unwrap().proposal is Some
            &&& r.unwrap().proposal.unwrap()@ == proposal_after(
                proposal_of(accounts, mode),
                accounts[0].key@,
                member_balance_at(accounts, mode, kind),
                env.now,
            )
            &&& r.unwrap().proposal.unwrap()@.executed
            &&& r.unwrap().actions@ == execution_actions(
                accounts,
                program_id,
                random_id,
                env,
                mode,
                kind,
            )
            &&& kind == ProposalType::Swap <==> r.unwrap().swap is Some
            &&& kind == ProposalType::Swap ==> is_swap_of(
                r.unwrap().swap.unwrap(),
                accounts,
                mode,
                proposal_of(accounts, mode).execution_amount,
                proposal_of(accounts, mode).execution_amount_out,
            )
        },
    }
}

/// Executes a proposal in a squad of the given mode.
pub fn process_execution(
    accounts: &[AccountSnapshot],
    random_id: &String,
    program_id: &Address,
    env: &Environment,
    mode: AllocationType,
) -> (r: Result<Outcome, SquadError>)
    ensures
        execution_result(accounts@, random_id@, *program_id, *env, mode.tag(), r),
{
    let tag = mode.as_u8();
    let k: usize = if tag == TEAM_COORDINATION {
        1
    } else {
        0
    };
    if accounts.len() < 9 + k {
        return Err(SquadError::MissingAccount);
    }
    let executioner = &accounts[0];
    let squad_account = &accounts[1];
    let proposal_account = &accounts[2 + k];
    if !executioner.is_signer {
        return Err(SquadError::MissingSignature);
    }
    let mut squad = match get_squad(program_id, squad_account) {
        Ok(squad) => squad,
        Err(e) => {
            return Err(e);
        },
    };
    let mut proposal = match get_proposal(program_id, squad_account, proposal_account) {
        Ok(proposal) => proposal,
        Err(e) => {
            return Err(e);
        },
    };
    if proposal.executed {
        return Err(SquadError::AlreadyExecuted);
    }
    if k == 1 && !squad.mint_address.same_as(&accounts[2].key) {
        return Err(SquadError::AddressMismatch);
    }
    if !accounts[6 + k].key.same_as(&token_program_id()) {
        return Err(SquadError::WrongProgram);
    }
    if k == 1 && !accounts[2].owner.same_as(&token_program_id()) {
        return Err(SquadError::WrongOwner);
    }
    if !accounts[7 + k].key.same_as(&associated_token_program_id()) {
        return Err(SquadError::WrongProgram);
    }
    if !accounts[3 + k].key.same_as(&proposal.execution_source) {
        return Err(SquadError::AddressMismatch);
    }
    if !accounts[4 + k].key.same_as(&proposal.execution_destination) {
        return Err(SquadError::AddressMismatch);
    }
    let supply: u64 = if k == 1 {
        match unpack_mint_supply(accounts[2].data.as_slice()) {
            Some(supply) => supply,
            None => {
                return Err(SquadError::MalformedRecord);
            },
        }
    } else {
        0
    };
    let kind = match check_execution(&squad, &proposal, tag, &executioner.key, supply) {
        Ok(kind) => kind,
        Err(e) => {
            return Err(e);
        },
    };
    let plan = match plan_effect(
        accounts,
        program_id,
        random_id,
        env,
        tag,
        kind,
        &squad,
        &proposal,
    ) {
        Ok(plan) => plan,
        Err(e) => {
            return Err(e);
        },
    };
    let executed = execute(
        &mut squad,
        &mut proposal,
        mode,
        &executioner.key,
        supply,
        &plan.equity_account,
        plan.member_balance,
        env.now,
    );
    assert(executed is Ok);
    Ok(
        Outcome {
            actions: plan.actions,
            squad: Some(squad),
            proposal: Some(proposal),
            receipt: None,
            swap: plan.swap,
        },
    )
}

/// Executes a proposal of a team-coordination squad. The ledger is to
/// perform the actions of the effect; then the proposal, marked as
/// executed, and the squad are persisted together.
pub fn process_execute_proposal(
    accounts: &[AccountSnapshot],
    random_id: String,
    program_id: &Address,
    env: &Environment,
) -> (r: Result<Outcome, SquadError>)
    ensures
        execution_result(accounts@, random_id@, *program_id, *env, TEAM_COORDINATION, r),
{
    process_execution(accounts, &random_id, program_id, env, AllocationType::TeamCoordination)
}

} // verus!
