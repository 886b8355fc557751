//! Creating a proposal against a squad: the checks, the record, and the
//! squad's sequence of proposal indices.

use vstd::prelude::*;
use crate::address::Address;
use crate::codec::{all_texts_fit, text_bytes, text_fits, texts_fit};
use crate::error::SquadError;
use crate::state::proposal::{
    saved, texts_view, Proposal, ProposalType, ProposalView, PROPOSAL_DESCRIPTION_BYTES,
    PROPOSAL_LABEL_BYTES, PROPOSAL_LINK_BYTES, PROPOSAL_TITLE_BYTES, PROPOSAL_VOTE_OPTIONS_NUM,
};
use crate::state::squad::{Squad, SquadView, MULTISIG, TEAM_COORDINATION};

verus! {

/// What is asked of a new proposal.
#[derive(Clone, Debug, PartialEq, Eq)]
pub struct ProposalRequest {
    /// The tag of the proposal's type.
    pub proposal_type: u8,
    /// The number of options.
    pub votes_num: u8,
    pub title: String,
    pub description: String,
    pub link: String,
    pub vote_labels: Vec<String>,
    pub start_timestamp: i64,
    pub close_timestamp: i64,
    /// The amount to pay, mint or swap, or the new percentage or quorum.
    pub amount: u64,
    /// The least that a swap is to bring.
    pub minimum_out: u64,
    /// The account to pay or swap from.
    pub source: Address,
    /// The account to pay or swap to, or the member concerned.
    pub destination: Address,
}

/// A request as a mathematical value.
pub ghost struct ProposalRequestView {
    pub proposal_type: u8,
    pub votes_num: u8,
    pub title: Seq<char>,
    pub description: Seq<char>,
    pub link: Seq<char>,
    pub vote_labels: Seq<Seq<char>>,
    pub start_timestamp: i64,
    pub close_timestamp: i64,
    pub amount: u64,
    pub minimum_out: u64,
    pub source: Seq<u8>,
    pub destination: Seq<u8>,
}

impl View for ProposalRequest {
    type V = ProposalRequestView;

    open spec fn view(&self) -> ProposalRequestView {
        ProposalRequestView {
            proposal_type: self.proposal_type,
            votes_num: self.votes_num,
            title: self.title@,
            description: self.description@,
            link: self.link@,
            vote_labels: texts_view(self.vote_labels@),
            start_timestamp: self.start_timestamp,
            close_timestamp: self.close_timestamp,
            amount: self.amount,
            minimum_out: self.minimum_out,
            source: self.source@,
            destination: self.destination@,
        }
    }
}

impl ProposalRequestView {
    /// Whether the texts fit their fields in a proposal record.
    pub open spec fn fits(self) -> bool {
        &&& text_bytes(self.title).len() <= PROPOSAL_TITLE_BYTES
        &&& text_bytes(self.description).len() <= PROPOSAL_DESCRIPTION_BYTES
        &&& text_bytes(self.link).len() <= PROPOSAL_LINK_BYTES
        &&& self.vote_labels.len() <= PROPOSAL_VOTE_OPTIONS_NUM
        &&& texts_fit(self.vote_labels, PROPOSAL_LABEL_BYTES as nat)
    }

    /// Why the parameters are refused for a type of proposal, if they are.
    pub open spec fn parameter_refusal(self, squad: SquadView, kind: ProposalType) -> Option<
        SquadError,
    > {
        if kind != ProposalType::Text && self.votes_num != 2 {
            Some(SquadError::OutOfRange)
        } else if kind == ProposalType::Text && self.votes_num > PROPOSAL_VOTE_OPTIONS_NUM {
            Some(SquadError::OutOfRange)
        } else if squad.is_multisig() && (kind == ProposalType::Text || kind == ProposalType::Support
            || kind == ProposalType::MintMemberToken) {
            Some(SquadError::WrongMode)
        } else if kind == ProposalType::Support && !(1 <= self.amount <= 100) {
            Some(SquadError::OutOfRange)
        } else if kind == ProposalType::Quorum && !squad.is_multisig() && !squad.is_team() {
            Some(SquadError::WrongMode)
        } else if kind == ProposalType::Quorum && !(1 <= self.amount && self.amount <= (
        if squad.is_multisig() {
            squad.member_count()
        } else {
            100
        })) {
            Some(SquadError::OutOfRange)
        } else {
            None
        }
    }
}

/// The index that the squad gives its next proposal.
pub open spec fn next_index(squad: SquadView) -> int {
    squad.proposal_nonce + 1
}

/// Why the creation of a proposal is refused, if it is. The checks stand in
/// the order in which they are made; `slot` is the record that the new
/// proposal is to take.
pub open spec fn creation_refusal(
    squad: SquadView,
    slot: ProposalView,
    creator: Seq<u8>,
    request: ProposalRequestView,
) -> Option<SquadError> {
    if slot.is_initialized {
        Some(SquadError::AlreadyInitialized)
    } else if !squad.is_member(creator) {
        Some(SquadError::NotMember)
    } else if squad.open {
        Some(SquadError::DraftSquad)
    } else if next_index(squad) > u32::MAX {
        Some(SquadError::Overflow)
    } else if !request.fits() {
        Some(SquadError::CapacityExceeded)
    } else {
        match ProposalType::of_tag(request.proposal_type) {
            None => Some(SquadError::UnknownProposalType),
            Some(kind) => request.parameter_refusal(squad, kind),
        }
    }
}

/// The record of a proposal that was created. In a multisig voting opens at
/// once, whatever start was asked for.
pub open spec fn created(
    squad: SquadView,
    slot: ProposalView,
    squad_address: Seq<u8>,
    creator: Seq<u8>,
    request: ProposalRequestView,
    now: i64,
) -> ProposalView {
    let kind = ProposalType::of_tag(request.proposal_type);
    let amount = if kind == Some(ProposalType::Text) || kind == Some(ProposalType::RemoveMember) {
        0
    } else {
        request.amount
    };
    let base = saved(
        slot,
        request.proposal_type,
        request.title,
        request.description,
        request.link,
        creator,
        request.votes_num,
        squad_address,
        request.vote_labels,
        if squad.is_multisig() {
            now
        } else {
            request.start_timestamp
        },
        request.close_timestamp,
        now,
        amount,
        next_index(squad) as u32,
    );
    match kind {
        Some(ProposalType::WithdrawSol) | Some(ProposalType::WithdrawSpl) => ProposalView {
            execution_source: request.source,
            execution_destination: request.destination,
            ..base
        },
        Some(ProposalType::AddMember) | Some(ProposalType::RemoveMember) | Some(
            ProposalType::MintMemberToken,
        ) => ProposalView {
            execution_source: squad_address,
            execution_destination: request.destination,
            ..base
        },
        Some(ProposalType::Swap) => ProposalView {
            execution_source: request.source,
            execution_destination: request.destination,
            execution_amount_out: request.minimum_out,
            ..base
        },
        _ => base,
    }
}

/// The checks of a creation; the type of the proposal where they pass.
fn admit_creation(squad: &Squad, slot: &Proposal, creator: &Address, request: &ProposalRequest) -> (r:
    Result<ProposalType, SquadError>)
    requires
        squad.wf(),
    ensures
        match creation_refusal(squad@, slot@, creator@, request@) {
            Some(e) => r == Err::<ProposalType, SquadError>(e),
            None => r is Ok && ProposalType::of_tag(request.proposal_type) == Some(r.unwrap()),
        },
{
    if slot.is_initialized {
        return Err(SquadError::AlreadyInitialized);
    }
    if !squad.member_exists(creator) {
        return Err(SquadError::NotMember);
    }
    if squad.open {
        return Err(SquadError::DraftSquad);
    }
    if squad.proposal_nonce == u32::MAX {
        return Err(SquadError::Overflow);
    }
    if !text_fits(&request.title, PROPOSAL_TITLE_BYTES) || !text_fits(
        &request.description,
        PROPOSAL_DESCRIPTION_BYTES,
    ) || !text_fits(&request.link, PROPOSAL_LINK_BYTES) || request.vote_labels.len()
        > PROPOSAL_VOTE_OPTIONS_NUM || !all_texts_fit(&request.vote_labels, PROPOSAL_LABEL_BYTES) {
        return Err(SquadError::CapacityExceeded);
    }
    let kind = match ProposalType::from_u8(request.proposal_type) {
        Some(kind) => kind,
        None => {
            return Err(SquadError::UnknownProposalType);
        },
    };
    let multisig = squad.allocation_type == MULTISIG;
    let team = squad.allocation_type == TEAM_COORDINATION;
    let text = match kind {
        ProposalType::Text => true,
        _ => false,
    };
    if !text && request.votes_num != 2 {
        return Err(SquadError::OutOfRange);
    }
    if text && request.votes_num as usize > PROPOSAL_VOTE_OPTIONS_NUM {
        return Err(SquadError::OutOfRange);
    }
    match kind {
        ProposalType::Text | ProposalType::MintMemberToken => {
            if multisig {
                return Err(SquadError::WrongMode);
            }
        },
        ProposalType::Support => {
            if multisig {
                return Err(SquadError::WrongMode);
            }
            if request.amount < 1 || request.amount > 100 {
                return Err(SquadError::OutOfRange);
            }
        },
        ProposalType::Quorum => {
            if !multisig && !team {
                return Err(SquadError::WrongMode);
            }
            let most: u64 = if multisig {
                squad.member_count() as u64
            } else {
                100
            };
            if request.amount < 1 || request.amount > most {
                return Err(SquadError::OutOfRange);
            }
        },
        _ => {},
    }
    Ok(kind)
}

/// Creates a proposal in the record `proposal` against a squad that is no
/// draft, for a member of it. The proposal takes the index after the squad's
/// last, and the squad's counter moves on to it. Where the creation is
/// refused neither record changes.
pub fn create_proposal(
    squad: &mut Squad,
    proposal: &mut Proposal,
    squad_address: &Address,
    creator: &Address,
    request: ProposalRequest,
    now: i64,
) -> (r: Result<(), SquadError>)
    requires
        old(squad).wf(),
        old(proposal).wf(),
    ensures
        final(squad).wf(),
        final(proposal).wf(),
        match creation_refusal(old(squad)@, old(proposal)@, creator@, request@) {
            Some(e) => {
                &&& r == Err::<(), SquadError>(e)
                &&& *final(squad) == *old(squad)
                &&& *final(proposal) == *old(proposal)
            },
            None => {
                &&& r is Ok
                &&& final(proposal)@ == created(
                    old(squad)@,
                    old(proposal)@,
                    squad_address@,
                    creator@,
                    request@,
                    now,
                )
                &&& final(proposal)@.proposal_index == next_index(old(squad)@)
                &&& final(squad)@ == (SquadView {
                    proposal_nonce: next_index(old(squad)@) as u32,
                    ..old(squad)@
                })
            },
        },
{
    let kind = match admit_creation(squad, proposal, creator, &request) {
        Ok(kind) => kind,
        Err(e) => {
            return Err(e);
        },
    };
    let index = squad.proposal_nonce + 1;
    let opens = if squad.allocation_type == MULTISIG {
        now
    } else {
        request.start_timestamp
    };
    let ghost asked = request@;
    let ProposalRequest {
        proposal_type,
        votes_num,
        title,
        description,
        link,
        vote_labels,
        start_timestamp: _,
        close_timestamp,
        amount,
        minimum_out,
        source,
        destination,
    } = request;
    match kind {
        ProposalType::Text => {
            proposal.save_text(
                proposal_type,
                title,
                description,
                link,
                creator,
                votes_num,
                squad_address,
                vote_labels,
                opens,
                close_timestamp,
                now,
                index,
            );
        },
        ProposalType::Support | ProposalType::Quorum => {
            proposal.save_core(
                proposal_type,
                title,
                description,
                link,
                creator,
                votes_num,
                squad_address,
                vote_labels,
                opens,
                close_timestamp,
                now,
                amount,
                index,
            );
        },
        ProposalType::WithdrawSol | ProposalType::WithdrawSpl => {
            proposal.save_withdraw(
                proposal_type,
                title,
                description,
                link,
                &source,
                &destination,
                creator,
                votes_num,
                squad_address,
                vote_labels,
                opens,
                close_timestamp,
                now,
                amount,
                index,
            );
        },
        ProposalType::AddMember | ProposalType::MintMemberToken => {
            proposal.save_member(
                proposal_type,
                title,
                description,
                link,
                &destination,
                creator,
                votes_num,
                squad_address,
                vote_labels,
                opens,
                close_timestamp,
                now,
                amount,
                index,
            );
        },
        ProposalType::RemoveMember => {
            proposal.save_member(
                proposal_type,
                title,
                description,
                link,
                &destination,
                creator,
                votes_num,
                squad_address,
                vote_labels,
                opens,
                close_timestamp,
                now,
                0,
                index,
            );
        },
        ProposalType::Swap => {
            proposal.save_swap(
                proposal_type,
                title,
                description,
                link,
                &source,
                &destination,
                creator,
                votes_num,
                squad_address,
                vote_labels,
                opens,
                close_timestamp,
                now,
                amount,
                minimum_out,
                index,
            );
        },
    }
    squad.proposal_nonce = index;
    Ok(())
}

} // verus!
