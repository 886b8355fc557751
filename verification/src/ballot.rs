//! Casting a vote: the receipt that bars a second vote, the tally, and the
//! decision that a vote may bring.

use vstd::prelude::*;
use crate::address::Address;
use crate::codec::keys_view;
use crate::error::SquadError;
use crate::state::proposal::{Proposal, ProposalView, MAX_VOTERS};
use crate::state::squad::{Squad, SquadView, MULTISIG, TEAM_COORDINATION};
use crate::state::vote::{receipt_of, VoteReceipt};
use crate::tally::{max_of, reaches_share, share_reached, sum, tip, tipped, total_votes, leading_slot};

verus! {

/// The membership-lock fence: membership or equity changed after the
/// proposal was created, and the proposal was not decided before.
pub open spec fn fenced(squad: SquadView, p: ProposalView) -> bool {
    !p.execute_ready && squad.member_lock_index >= p.proposal_index
}

/// Why a vote is refused, if it is. The checks stand in the order in which
/// they are made: a receipt bars the vote before anything else is looked
/// at. Voting is open from the start of the window up to its close, the
/// close not included.
pub open spec fn vote_refusal(
    squad: SquadView,
    p: ProposalView,
    mode: u8,
    receipt_exists: bool,
    voter: Seq<u8>,
    choice: u8,
    weight: u64,
    now: i64,
) -> Option<SquadError> {
    if receipt_exists {
        Some(SquadError::DuplicateVote)
    } else if squad.allocation_type != mode {
        Some(SquadError::WrongMode)
    } else if fenced(squad, p) {
        Some(SquadError::Fenced)
    } else if now >= p.close_timestamp {
        Some(SquadError::VotingClosed)
    } else if now < p.start_timestamp {
        Some(SquadError::VotingNotStarted)
    } else if p.executed {
        Some(SquadError::AlreadyExecuted)
    } else if !squad.is_member(voter) {
        Some(SquadError::NotMember)
    } else if choice >= p.votes_num || choice >= p.votes.len() {
        Some(SquadError::OutOfRange)
    } else if p.has_voted.len() >= MAX_VOTERS {
        Some(SquadError::CapacityExceeded)
    } else if p.votes[choice as int] + weight > u64::MAX {
        Some(SquadError::Overflow)
    } else {
        None
    }
}

/// The proposal with one more vote in its tally and one more voter.
pub open spec fn tallied(p: ProposalView, voter: Seq<u8>, choice: u8, weight: u64) -> ProposalView {
    ProposalView {
        votes: p.votes.update(choice as int, (p.votes[choice as int] + weight) as u64),
        has_voted: p.has_voted.push(voter),
        has_voted_num: (p.has_voted.len() + 1) as u8,
        ..p
    }
}

/// Whether a two-option tally rejects for good under token weights: the
/// rejecting weight exceeds the approving weight and all that can still vote.
pub open spec fn team_rejects(t: ProposalView, supply: u64) -> bool {
    t.proposal_type != 0 && t.votes[1] > t.votes[0] + (supply - sum(t.votes))
}

/// Whether the tally decides the proposal under token weights. A poll is
/// decided once its lead cannot be overturned and quorum and support hold of
/// the leading option; any other proposal once it is not rejected and quorum
/// and support hold of the approving option.
pub open spec fn team_approves(squad: SquadView, t: ProposalView, supply: u64) -> bool {
    let quorum = share_reached(t.has_voted.len(), squad.member_count(), squad.vote_quorum as nat);
    if t.proposal_type == 0 {
        &&& tipped(t.votes, supply as nat)
        &&& quorum
        &&& share_reached(max_of(t.votes), supply as nat, squad.vote_support as nat)
    } else {
        &&& !team_rejects(t, supply)
        &&& quorum
        &&& share_reached(t.votes[0] as nat, supply as nat, squad.vote_support as nat)
    }
}

/// The proposal after a vote under token weights. Until the proposal is
/// decided each vote renews the snapshot of supply and member count; the
/// vote that decides it leaves them frozen.
pub open spec fn team_vote_applied(
    squad: SquadView,
    p: ProposalView,
    voter: Seq<u8>,
    choice: u8,
    weight: u64,
    supply: u64,
) -> ProposalView {
    let t = tallied(p, voter, choice, weight);
    ProposalView {
        execute_ready: p.execute_ready || team_approves(squad, t, supply),
        executed: team_rejects(t, supply),
        supply_at_execute: if p.execute_ready {
            p.supply_at_execute
        } else {
            supply
        },
        members_at_execute: if p.execute_ready {
            p.members_at_execute
        } else {
            squad.member_count() as u8
        },
        ..t
    }
}

/// Whether a multisig tally rejects for good: even with every vote still
/// to come the approvals stay under the quorum.
pub open spec fn multisig_rejects(squad: SquadView, t: ProposalView) -> bool {
    squad.vote_quorum > (squad.member_count() - (t.votes[0] + t.votes[1])) + t.votes[0]
}

/// Whether a multisig tally approves: the approvals reach the quorum.
pub open spec fn multisig_approves(squad: SquadView, t: ProposalView) -> bool {
    t.votes[0] >= squad.vote_quorum
}

/// The proposal after a vote in a multisig. The vote that decides the
/// proposal freezes the quorum and the member count it was decided under.
pub open spec fn multisig_vote_applied(
    squad: SquadView,
    p: ProposalView,
    voter: Seq<u8>,
    choice: u8,
) -> ProposalView {
    let t = tallied(p, voter, choice, 1);
    ProposalView {
        execute_ready: p.execute_ready || multisig_rejects(squad, t) || multisig_approves(squad, t),
        executed: multisig_rejects(squad, t),
        threshold_at_execute: if p.execute_ready || !(multisig_rejects(squad, t) || multisig_approves(
            squad,
            t,
        )) {
            p.threshold_at_execute
        } else {
            squad.vote_quorum
        },
        supply_at_execute: if p.execute_ready {
            p.supply_at_execute
        } else {
            squad.member_count() as u64
        },
        members_at_execute: if p.execute_ready {
            p.members_at_execute
        } else {
            squad.member_count() as u8
        },
        ..t
    }
}

/// The checks that both modes make before a vote counts.
fn admit_vote(
    squad: &Squad,
    proposal: &Proposal,
    mode: u8,
    receipt_exists: bool,
    voter: &Address,
    choice: u8,
    weight: u64,
    now: i64,
) -> (r: Result<u64, SquadError>)
    requires
        proposal.wf(),
    ensures
        match vote_refusal(squad@, proposal@, mode, receipt_exists, voter@, choice, weight, now) {
            Some(e) => r == Err::<u64, SquadError>(e),
            None => r == Ok::<u64, SquadError>((proposal@.votes[choice as int] + weight) as u64),
        },
{
    if receipt_exists {
        return Err(SquadError::DuplicateVote);
    }
    if squad.allocation_type != mode {
        return Err(SquadError::WrongMode);
    }
    if !proposal.execute_ready && squad.member_lock_index >= proposal.proposal_index {
        return Err(SquadError::Fenced);
    }
    if now >= proposal.close_timestamp {
        return Err(SquadError::VotingClosed);
    }
    if now < proposal.start_timestamp {
        return Err(SquadError::VotingNotStarted);
    }
    if proposal.executed {
        return Err(SquadError::AlreadyExecuted);
    }
    if !squad.member_exists(voter) {
        return Err(SquadError::NotMember);
    }
    if choice >= proposal.votes_num || choice as usize >= proposal.votes.len() {
        return Err(SquadError::OutOfRange);
    }
    if proposal.has_voted.len() >= MAX_VOTERS {
        return Err(SquadError::CapacityExceeded);
    }
    match proposal.votes[choice as usize].checked_add(weight) {
        Some(updated) => Ok(updated),
        None => Err(SquadError::Overflow),
    }
}

/// Casts a vote in a team-coordination squad: `weight` is the voter's token
/// balance, `supply` the token's supply, and `receipt_exists` tells whether
/// the voter holds a receipt for the proposal already. A vote that counts
/// changes the tally and gives the receipt to persist; a vote that is
/// refused changes nothing and gives no receipt.
pub fn cast_vote(
    squad: &Squad,
    proposal: &mut Proposal,
    receipt_exists: bool,
    proposal_address: &Address,
    voter: &Address,
    choice: u8,
    weight: u64,
    supply: u64,
    now: i64,
) -> (r: Result<VoteReceipt, SquadError>)
    requires
        squad.wf(),
        old(proposal).wf(),
    ensures
        final(proposal).wf(),
        match vote_refusal(
            squad@,
            old(proposal)@,
            TEAM_COORDINATION,
            receipt_exists,
            voter@,
            choice,
            weight,
            now,
        ) {
            Some(e) => {
                &&& r == Err::<VoteReceipt, SquadError>(e)
                &&& *final(proposal) == *old(proposal)
            },
            None => {
                &&& r is Ok
                &&& final(proposal)@ == team_vote_applied(
                    squad@,
                    old(proposal)@,
                    voter@,
                    choice,
                    weight,
                    supply,
                )
                &&& r.unwrap()@ == receipt_of(proposal_address@, choice, voter@, now, weight)
            },
        },
{
    let updated = match admit_vote(
        squad,
        proposal,
        TEAM_COORDINATION,
        receipt_exists,
        voter,
        choice,
        weight,
        now,
    ) {
        Ok(updated) => updated,
        Err(e) => {
            return Err(e);
        },
    };
    let members = squad.member_count();
    let was_ready = proposal.execute_ready;
    let ghost before = proposal@;
    proposal.votes[choice as usize] = updated;
    proposal.has_voted.push(*voter);
    proposal.has_voted_num = proposal.has_voted.len() as u8;
    proof {
        assert(keys_view(proposal.has_voted@) =~= before.has_voted.push(voter@));
        assert(proposal@ == tallied(before, voter@, choice, weight));
    }
    let ghost t = proposal@;
    let voters = proposal.has_voted.len() as u64;
    let quorum = reaches_share(voters, members as u64, squad.vote_quorum);
    let cast = total_votes(&proposal.votes);
    proof {
        crate::tally::lemma_sum_bound(t.votes);
    }
    let rejected = proposal.proposal_type != 0 && proposal.votes[1] as u128 + cast
        > proposal.votes[0] as u128 + supply as u128;
    let approved = if proposal.proposal_type == 0 {
        let lead = leading_slot(&proposal.votes);
        tip(&proposal.votes, supply) && quorum && reaches_share(
            proposal.votes[lead],
            supply,
            squad.vote_support,
        )
    } else {
        !rejected && quorum && reaches_share(proposal.votes[0], supply, squad.vote_support)
    };
    proof {
        assert(rejected == team_rejects(t, supply));
        assert(approved == team_approves(squad@, t, supply));
    }
    if !was_ready {
        proposal.supply_at_execute = supply;
        proposal.members_at_execute = members as u8;
    }
    if approved {
        proposal.execute_ready = true;
    }
    proposal.executed = rejected;
    let mut fresh = VoteReceipt::blank();
    fresh.save_vote(proposal_address, choice, voter, now, weight);
    Ok(fresh)
}

/// Casts a vote in a multisig, where each member's vote weighs one. A vote
/// that counts changes the tally and gives the receipt to persist; a vote
/// that is refused changes nothing and gives no receipt.
pub fn cast_multisig_vote(
    squad: &Squad,
    proposal: &mut Proposal,
    receipt_exists: bool,
    proposal_address: &Address,
    voter: &Address,
    choice: u8,
    now: i64,
) -> (r: Result<VoteReceipt, SquadError>)
    requires
        squad.wf(),
        old(proposal).wf(),
    ensures
        final(proposal).wf(),
        match vote_refusal(
            squad@,
            old(proposal)@,
            MULTISIG,
            receipt_exists,
            voter@,
            choice,
            1,
            now,
        ) {
            Some(e) => {
                &&& r == Err::<VoteReceipt, SquadError>(e)
                &&& *final(proposal) == *old(proposal)
            },
            None => {
                &&& r is Ok
                &&& final(proposal)@ == multisig_vote_applied(squad@, old(proposal)@, voter@, choice)
                &&& r.unwrap()@ == receipt_of(proposal_address@, choice, voter@, now, 1)
            },
        },
{
    let updated = match admit_vote(
        squad,
        proposal,
        MULTISIG,
        receipt_exists,
        voter,
        choice,
        1,
        now,
    ) {
        Ok(updated) => updated,
        Err(e) => {
            return Err(e);
        },
    };
    let members = squad.member_count();
    let was_ready = proposal.execute_ready;
    let ghost before = proposal@;
    proposal.votes[choice as usize] = updated;
    proposal.has_voted.push(*voter);
    proposal.has_voted_num = proposal.has_voted.len() as u8;
    proof {
        assert(keys_view(proposal.has_voted@) =~= before.has_voted.push(voter@));
        assert(proposal@ == tallied(before, voter@, choice, 1));
    }
    let pass = proposal.votes[0];
    let fail = proposal.votes[1];
    let rejected = squad.vote_quorum as u128 + fail as u128 > members as u128;
    let approved = pass >= squad.vote_quorum as u64;
    if !was_ready {
        proposal.supply_at_execute = members as u64;
        proposal.members_at_execute = members as u8;
        if rejected || approved {
            proposal.threshold_at_execute = squad.vote_quorum;
        }
    }
    if rejected || approved {
        proposal.execute_ready = true;
    }
    proposal.executed = rejected;
    let mut fresh = VoteReceipt::blank();
    fresh.save_vote(proposal_address, choice, voter, now, 1);
    Ok(fresh)
}

} // verus!
