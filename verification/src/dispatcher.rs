//! Executing a decided proposal: the checks, the change to the squad, and
//! the effect that is left to the ledger.

use vstd::prelude::*;
use crate::address::Address;
use crate::ballot::fenced;
use crate::error::SquadError;
use crate::roster::{Member, MAX_MEMBERS};
use crate::state::proposal::{Proposal, ProposalType, ProposalView};
use crate::state::squad::{AllocationType, Squad, SquadView, MULTISIG, TEAM_COORDINATION};
use crate::tally::{reaches_share, share_reached};

verus! {

/// What the ledger is to do when a proposal is executed.
#[derive(Clone, Copy, Debug, PartialEq, Eq, Structural)]
pub enum Effect {
    /// Nothing beyond the records.
    Nothing,
    /// Pay native currency from the treasury to the proposal's destination.
    PaySol { amount: u64 },
    /// Pay tokens from the proposal's source to the destination's token account.
    PayTokens { amount: u64 },
    /// Open the new member's equity account and mint this much equity to it.
    Admit { equity: u64 },
    /// Burn the member's equity and close the member's equity account.
    Expel { burn: u64 },
    /// Mint this much equity to the member.
    MintEquity { amount: u64 },
    /// Burn this much of the member's equity.
    BurnEquity { amount: u64 },
    /// Swap this much of the source asset for at least so much of the other.
    Swap { amount_in: u64, minimum_out: u64 },
}

/// Whether a type of proposal can be executed in a mode.
pub open spec fn executable_in(mode: u8, kind: ProposalType) -> bool {
    match kind {
        ProposalType::Text => false,
        ProposalType::Support | ProposalType::MintMemberToken => mode == TEAM_COORDINATION,
        _ => true,
    }
}

/// Whether the votes carry the proposal. A proposal that is decided is not
/// held to the live numbers again. In a team it was marked decided by the
/// vote that brought quorum and support on the snapshot of that moment, and
/// that decision stands whatever quorum, support, members and supply have
/// become. In a multisig it is held to the quorum that was frozen when it
/// was decided. A proposal that is not decided is held to the live numbers:
/// `supply` is the live supply of the governance token.
pub open spec fn threshold_met(squad: SquadView, p: ProposalView, supply: u64) -> bool {
    if squad.is_multisig() {
        p.votes[0] >= (if p.execute_ready {
            p.threshold_at_execute
        } else {
            squad.vote_quorum
        })
    } else if p.execute_ready {
        true
    } else {
        &&& share_reached(p.has_voted.len(), squad.member_count(), squad.vote_quorum as nat)
        &&& share_reached(p.votes[0] as nat, supply as nat, squad.vote_support as nat)
    }
}

/// Why the effect of a proposal is refused, if it is.
pub open spec fn effect_refusal(squad: SquadView, p: ProposalView, kind: ProposalType) -> Option<
    SquadError,
> {
    match kind {
        ProposalType::Support => if 1 <= p.execution_amount <= 100 {
            None
        } else {
            Some(SquadError::OutOfRange)
        },
        ProposalType::Quorum => if 1 <= p.execution_amount && p.execution_amount <= (
        if squad.is_multisig() {
            squad.member_count()
        } else {
            100
        }) {
            None
        } else {
            Some(SquadError::OutOfRange)
        },
        ProposalType::AddMember => if squad.is_member(p.execution_destination) {
            Some(SquadError::AlreadyMember)
        } else if squad.member_count() >= MAX_MEMBERS {
            Some(SquadError::CapacityExceeded)
        } else {
            None
        },
        ProposalType::RemoveMember | ProposalType::MintMemberToken => if squad.is_member(
            p.execution_destination,
        ) {
            None
        } else {
            Some(SquadError::UnknownMember)
        },
        _ => None,
    }
}

/// Why an execution is refused, if it is. The checks stand in the order in
/// which they are made.
pub open spec fn execution_refusal(
    squad: SquadView,
    p: ProposalView,
    mode: u8,
    executor: Seq<u8>,
    supply: u64,
) -> Option<SquadError> {
    if p.executed {
        Some(SquadError::AlreadyExecuted)
    } else if fenced(squad, p) {
        Some(SquadError::Fenced)
    } else if squad.allocation_type != mode {
        Some(SquadError::WrongMode)
    } else if !squad.is_member(executor) {
        Some(SquadError::NotMember)
    } else {
        match p.kind() {
            None => Some(SquadError::UnknownProposalType),
            Some(kind) => if kind == ProposalType::Text {
                Some(SquadError::NotExecutable)
            } else if !executable_in(mode, kind) {
                Some(SquadError::WrongMode)
            } else if !squad.is_multisig() && p.votes[0] < p.votes[1] {
                Some(SquadError::Rejected)
            } else if !threshold_met(squad, p, supply) {
                Some(SquadError::ThresholdNotMet)
            } else {
                effect_refusal(squad, p, kind)
            },
        }
    }
}

/// The squad after the execution of a proposal. `equity_account` is the
/// account recorded for a member who is admitted, `member_balance` the
/// equity that the member concerned holds.
pub open spec fn squad_after(
    squad: SquadView,
    p: ProposalView,
    equity_account: Seq<u8>,
    member_balance: u64,
) -> SquadView {
    match p.kind() {
        Some(ProposalType::Support) => SquadView { vote_support: p.execution_amount as u8, ..squad },
        Some(ProposalType::Quorum) => SquadView { vote_quorum: p.execution_amount as u8, ..squad },
        Some(ProposalType::AddMember) => SquadView {
            members: squad.members.insert(p.execution_destination, equity_account),
            member_lock_index: squad.proposal_nonce,
            ..squad
        },
        Some(ProposalType::RemoveMember) => SquadView {
            members: squad.members.remove(p.execution_destination),
            member_lock_index: squad.proposal_nonce,
            vote_quorum: if squad.is_multisig() && squad.vote_quorum == squad.member_count() {
                (squad.vote_quorum - 1) as u8
            } else {
                squad.vote_quorum
            },
            ..squad
        },
        Some(ProposalType::MintMemberToken) => SquadView {
            member_lock_index: if member_balance != p.execution_amount {
                squad.proposal_nonce
            } else {
                squad.member_lock_index
            },
            ..squad
        },
        _ => squad,
    }
}

/// The proposal after its execution.
pub open spec fn proposal_after(
    p: ProposalView,
    executor: Seq<u8>,
    member_balance: u64,
    now: i64,
) -> ProposalView {
    ProposalView {
        executed: true,
        executed_by: executor,
        execution_date: now,
        execution_amount_out: if p.kind() == Some(ProposalType::MintMemberToken) {
            member_balance
        } else {
            p.execution_amount_out
        },
        ..p
    }
}

/// What is left to the ledger when a proposal is executed.
pub open spec fn effect_of(squad: SquadView, p: ProposalView, member_balance: u64) -> Effect {
    match p.kind() {
        Some(ProposalType::WithdrawSol) => Effect::PaySol { amount: p.execution_amount },
        Some(ProposalType::WithdrawSpl) => Effect::PayTokens { amount: p.execution_amount },
        Some(ProposalType::AddMember) => if squad.is_multisig() {
            Effect::Nothing
        } else {
            Effect::Admit { equity: p.execution_amount }
        },
        Some(ProposalType::RemoveMember) => if squad.is_multisig() {
            Effect::Nothing
        } else {
            Effect::Expel { burn: member_balance }
        },
        Some(ProposalType::MintMemberToken) => if member_balance < p.execution_amount {
            Effect::MintEquity { amount: (p.execution_amount - member_balance) as u64 }
        } else if member_balance > p.execution_amount {
            Effect::BurnEquity { amount: (member_balance - p.execution_amount) as u64 }
        } else {
            Effect::Nothing
        },
        Some(ProposalType::Swap) => Effect::Swap {
            amount_in: p.execution_amount,
            minimum_out: p.execution_amount_out,
        },
        _ => Effect::Nothing,
    }
}

/// Whether the votes carry the proposal.
fn meets_threshold(squad: &Squad, proposal: &Proposal, supply: u64) -> (r: bool)
    requires
        squad.wf(),
        proposal.wf(),
    ensures
        r == threshold_met(squad@, proposal@, supply),
{
    let pass = proposal.votes[0];
    if squad.allocation_type == MULTISIG {
        let bar = if proposal.execute_ready {
            proposal.threshold_at_execute
        } else {
            squad.vote_quorum
        };
        pass >= bar as u64
    } else if proposal.execute_ready {
        true
    } else {
        reaches_share(
            proposal.has_voted.len() as u64,
            squad.member_count() as u64,
            squad.vote_quorum,
        ) && reaches_share(pass, supply, squad.vote_support)
    }
}

/// Checks whether a proposal can be executed in a squad of the given mode,
/// and changes nothing. The type of the proposal comes back where it can.
pub fn check_execution(
    squad: &Squad,
    proposal: &Proposal,
    mode: u8,
    executor: &Address,
    supply: u64,
) -> (r: Result<ProposalType, SquadError>)
    requires
        squad.wf(),
        proposal.wf(),
    ensures
        match execution_refusal(squad@, proposal@, mode, executor@, supply) {
            Some(e) => r == Err::<ProposalType, SquadError>(e),
            None => r is Ok && proposal@.kind() == Some(r.unwrap()),
        },
{
    if proposal.executed {
        return Err(SquadError::AlreadyExecuted);
    }
    if !proposal.execute_ready && squad.member_lock_index >= proposal.proposal_index {
        return Err(SquadError::Fenced);
    }
    if squad.allocation_type != mode {
        return Err(SquadError::WrongMode);
    }
    if !squad.member_exists(executor) {
        return Err(SquadError::NotMember);
    }
    let kind = match ProposalType::from_u8(proposal.proposal_type) {
        Some(kind) => kind,
        None => {
            return Err(SquadError::UnknownProposalType);
        },
    };
    match kind {
        ProposalType::Text => {
            return Err(SquadError::NotExecutable);
        },
        ProposalType::Support | ProposalType::MintMemberToken => {
            if mode != TEAM_COORDINATION {
                return Err(SquadError::WrongMode);
            }
        },
        _ => {},
    }
    if squad.allocation_type != MULTISIG && proposal.votes[0] < proposal.votes[1] {
        return Err(SquadError::Rejected);
    }
    if !meets_threshold(squad, proposal, supply) {
        return Err(SquadError::ThresholdNotMet);
    }
    let members = squad.member_count();
    match kind {
        ProposalType::Support => {
            if proposal.execution_amount < 1 || proposal.execution_amount > 100 {
                return Err(SquadError::OutOfRange);
            }
        },
        ProposalType::Quorum => {
            let most: u64 = if squad.allocation_type == MULTISIG {
                members as u64
            } else {
                100
            };
            if proposal.execution_amount < 1 || proposal.execution_amount > most {
                return Err(SquadError::OutOfRange);
            }
        },
        ProposalType::AddMember => {
            if squad.member_exists(&proposal.execution_destination) {
                return Err(SquadError::AlreadyMember);
            }
            if members >= MAX_MEMBERS {
                return Err(SquadError::CapacityExceeded);
            }
        },
        ProposalType::RemoveMember | ProposalType::MintMemberToken => {
            if !squad.member_exists(&proposal.execution_destination) {
                return Err(SquadError::UnknownMember);
            }
        },
        _ => {},
    }
    Ok(kind)
}

/// Executes a proposal in a squad of the given mode. Where it is refused
/// neither record changes; where it is not, both change together and the
/// effect tells what the ledger is to do.
pub fn execute(
    squad: &mut Squad,
    proposal: &mut Proposal,
    mode: AllocationType,
    executor: &Address,
    supply: u64,
    equity_account: &Address,
    member_balance: u64,
    now: i64,
) -> (r: Result<Effect, SquadError>)
    requires
        old(squad).wf(),
        old(proposal).wf(),
    ensures
        final(squad).wf(),
        final(proposal).wf(),
        match execution_refusal(old(squad)@, old(proposal)@, mode.tag(), executor@, supply) {
            Some(e) => {
                &&& r == Err::<Effect, SquadError>(e)
                &&& *final(squad) == *old(squad)
                &&& *final(proposal) == *old(proposal)
            },
            None => {
                &&& r == Ok::<Effect, SquadError>(effect_of(old(squad)@, old(proposal)@, member_balance))
                &&& final(squad)@ == squad_after(
                    old(squad)@,
                    old(proposal)@,
                    equity_account@,
                    member_balance,
                )
                &&& final(proposal)@ == proposal_after(old(proposal)@, executor@, member_balance, now)
            },
        },
{
    let kind = match check_execution(squad, proposal, mode.as_u8(), executor, supply) {
        Ok(kind) => kind,
        Err(e) => {
            return Err(e);
        },
    };
    let multisig = squad.allocation_type == MULTISIG;
    let members = squad.member_count();
    let amount = proposal.execution_amount;
    let effect = match kind {
        ProposalType::Support => {
            squad.vote_support = amount as u8;
            Effect::Nothing
        },
        ProposalType::Quorum => {
            squad.vote_quorum = amount as u8;
            Effect::Nothing
        },
        ProposalType::WithdrawSol => Effect::PaySol { amount },
        ProposalType::WithdrawSpl => Effect::PayTokens { amount },
        ProposalType::AddMember => {
            let added = squad.add_member(
                proposal.execution_destination,
                Member { equity_token_account: *equity_account },
            );
            assert(added is Ok);
            squad.member_lock_index = squad.proposal_nonce;
            if multisig {
                Effect::Nothing
            } else {
                Effect::Admit { equity: amount }
            }
        },
        ProposalType::RemoveMember => {
            proof {
                squad.members.lemma_count();
                assert(squad@.members.dom().contains(proposal@.execution_destination));
                assert(squad@.members.dom().len() > 0);
            }
            if multisig && squad.vote_quorum as usize == members {
                squad.vote_quorum = squad.vote_quorum - 1;
            }
            squad.remove_member(&proposal.execution_destination);
            squad.member_lock_index = squad.proposal_nonce;
            if multisig {
                Effect::Nothing
            } else {
                Effect::Expel { burn: member_balance }
            }
        },
        ProposalType::MintMemberToken => {
            proposal.execution_amount_out = member_balance;
            if member_balance < amount {
                squad.member_lock_index = squad.proposal_nonce;
                Effect::MintEquity { amount: amount - member_balance }
            } else if member_balance > amount {
                squad.member_lock_index = squad.proposal_nonce;
                Effect::BurnEquity { amount: member_balance - amount }
            } else {
                Effect::Nothing
            }
        },
        ProposalType::Swap => Effect::Swap {
            amount_in: amount,
            minimum_out: proposal.execution_amount_out,
        },
        ProposalType::Text => Effect::Nothing,
    };
    proposal.executed_by = *executor;
    proposal.executed = true;
    proposal.execution_date = now;
    Ok(effect)
}

} // verus!
