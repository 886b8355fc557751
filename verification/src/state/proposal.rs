//! The proposal record: what is proposed, the tally, the voting window and
//! the execution state, with its persisted layout.

use vstd::prelude::*;
use vstd::bytes::*;
use vstd::slice::*;
use vstd::utf8::*;
use crate::address::Address;
use crate::codec::{
    borsh_decode_keys, borsh_encode_keys, concat, decode_keys, encode_keys, flag_byte,
    flag_from_byte, flag_to_byte, i64_from_le, i64_from_le_bytes, i64_le_bytes, i64_to_le_bytes,
    items_decodable, keys_view, lemma_concat_len, lemma_concat_step, overlay, padded, put,
    put_over, put_padded, read_text, text_bytes, texts_fit, zeros,
};
use crate::error::SquadError;

verus! {

/// What a proposal asks for.
#[derive(Clone, Copy, Debug, PartialEq, Eq, Structural)]
pub enum ProposalType {
    /// A poll among up to five options, with no effect.
    Text,
    /// Change the support percentage.
    Support,
    /// Change the quorum.
    Quorum,
    /// Pay native currency out of the treasury.
    WithdrawSol,
    /// Pay tokens out of the treasury.
    WithdrawSpl,
    /// Admit a member.
    AddMember,
    /// Remove a member.
    RemoveMember,
    /// Set a member's equity.
    MintMemberToken,
    /// Swap treasury assets.
    Swap,
}

impl ProposalType {
    /// The tag that stands for the type in a proposal record.
    pub open spec fn tag(self) -> u8 {
        match self {
            ProposalType::Text => 0,
            ProposalType::Support => 1,
            ProposalType::Quorum => 2,
            ProposalType::WithdrawSol => 3,
            ProposalType::WithdrawSpl => 4,
            ProposalType::AddMember => 5,
            ProposalType::RemoveMember => 6,
            ProposalType::MintMemberToken => 7,
            ProposalType::Swap => 8,
        }
    }

    /// The type that a tag stands for.
    pub open spec fn of_tag(tag: u8) -> Option<ProposalType> {
        if tag == 0 {
            Some(ProposalType::Text)
        } else if tag == 1 {
            Some(ProposalType::Support)
        } else if tag == 2 {
            Some(ProposalType::Quorum)
        } else if tag == 3 {
            Some(ProposalType::WithdrawSol)
        } else if tag == 4 {
            Some(ProposalType::WithdrawSpl)
        } else if tag == 5 {
            Some(ProposalType::AddMember)
        } else if tag == 6 {
            Some(ProposalType::RemoveMember)
        } else if tag == 7 {
            Some(ProposalType::MintMemberToken)
        } else if tag == 8 {
            Some(ProposalType::Swap)
        } else {
            None
        }
    }

    /// The tag that stands for the type in a proposal record.
    pub fn as_u8(&self) -> (tag: u8)
        ensures
            tag == self.tag(),
            ProposalType::of_tag(tag) == Some(*self),
    {
        match self {
            ProposalType::Text => 0,
            ProposalType::Support => 1,
            ProposalType::Quorum => 2,
            ProposalType::WithdrawSol => 3,
            ProposalType::WithdrawSpl => 4,
            ProposalType::AddMember => 5,
            ProposalType::RemoveMember => 6,
            ProposalType::MintMemberToken => 7,
            ProposalType::Swap => 8,
        }
    }

    /// The type that a tag stands for.
    pub fn from_u8(tag: u8) -> (r: Option<ProposalType>)
        ensures
            r == ProposalType::of_tag(tag),
    {
        if tag == 0 {
            Some(ProposalType::Text)
        } else if tag == 1 {
            Some(ProposalType::Support)
        } else if tag == 2 {
            Some(ProposalType::Quorum)
        } else if tag == 3 {
            Some(ProposalType::WithdrawSol)
        } else if tag == 4 {
            Some(ProposalType::WithdrawSpl)
        } else if tag == 5 {
            Some(ProposalType::AddMember)
        } else if tag == 6 {
            Some(ProposalType::RemoveMember)
        } else if tag == 7 {
            Some(ProposalType::MintMemberToken)
        } else if tag == 8 {
            Some(ProposalType::Swap)
        } else {
            None
        }
    }
}

/// The number of slots in a tally.
pub const PROPOSAL_VOTE_OPTIONS_NUM: usize = 5;

/// The most voters a proposal records.
pub const MAX_VOTERS: usize = 150;

/// The width of a proposal's title.
pub const PROPOSAL_TITLE_BYTES: usize = 36;

/// The width of a proposal's description.
pub const PROPOSAL_DESCRIPTION_BYTES: usize = 496;

/// The width of a proposal's link.
pub const PROPOSAL_LINK_BYTES: usize = 48;

/// The width of the label of an option.
pub const PROPOSAL_LABEL_BYTES: usize = 44;

/// The width of the field of voters: a full list with its length.
pub const PROPOSAL_HAS_VOTED_BYTES: usize = 4804;

/// The width of a persisted proposal.
pub const PROPOSAL_TOTAL_BYTES: usize = 6002;

/// A proposal.
#[derive(Clone, Debug, PartialEq, Eq)]
pub struct Proposal {
    /// Whether the record has been set up.
    pub is_initialized: bool,
    /// The tag of the proposal's type.
    pub proposal_type: u8,
    pub execution_amount: u64,
    pub execution_amount_out: u64,
    pub execution_source: Address,
    pub execution_destination: Address,
    pub creator: Address,
    /// The squad that the proposal belongs to.
    pub squad_address: Address,
    pub title: String,
    pub description: String,
    pub link: String,
    /// How many slots of the tally are in use.
    pub votes_num: u8,
    pub has_voted_num: u8,
    /// Who has voted, in the order of voting.
    pub has_voted: Vec<Address>,
    /// The tally: the weight cast for each option.
    pub votes: Vec<u64>,
    pub votes_labels: Vec<String>,
    pub start_timestamp: i64,
    pub close_timestamp: i64,
    pub created_timestamp: i64,
    /// The total voting weight at the vote that decided the proposal.
    pub supply_at_execute: u64,
    /// The number of members at the vote that decided the proposal.
    pub members_at_execute: u8,
    /// The quorum at the vote that decided the proposal (multisig).
    pub threshold_at_execute: u8,
    /// Whether the proposal has reached its terminal state.
    pub executed: bool,
    /// Whether the proposal is decided.
    pub execute_ready: bool,
    pub execution_date: i64,
    pub instruction_index: u8,
    pub multiple_choice: bool,
    pub executed_by: Address,
    /// The squad's sequence number for this proposal.
    pub proposal_index: u32,
    pub reserved: [u64; 16],
}

/// A proposal as a mathematical value.
pub ghost struct ProposalView {
    pub is_initialized: bool,
    pub proposal_type: u8,
    pub execution_amount: u64,
    pub execution_amount_out: u64,
    pub execution_source: Seq<u8>,
    pub execution_destination: Seq<u8>,
    pub creator: Seq<u8>,
    pub squad_address: Seq<u8>,
    pub title: Seq<char>,
    pub description: Seq<char>,
    pub link: Seq<char>,
    pub votes_num: u8,
    pub has_voted_num: u8,
    pub has_voted: Seq<Seq<u8>>,
    pub votes: Seq<u64>,
    pub votes_labels: Seq<Seq<char>>,
    pub start_timestamp: i64,
    pub close_timestamp: i64,
    pub created_timestamp: i64,
    pub supply_at_execute: u64,
    pub members_at_execute: u8,
    pub threshold_at_execute: u8,
    pub executed: bool,
    pub execute_ready: bool,
    pub execution_date: i64,
    pub instruction_index: u8,
    pub multiple_choice: bool,
    pub executed_by: Seq<u8>,
    pub proposal_index: u32,
    pub reserved: Seq<u64>,
}

/// The texts of a list of strings.
pub open spec fn texts_view(texts: Seq<String>) -> Seq<Seq<char>> {
    Seq::new(texts.len(), |i: int| texts[i]@)
}

impl ProposalView {
    /// The proposal's invariant: a tally of five slots, a bounded list of
    /// voters whose length is recorded, and at most five labels.
    pub open spec fn wf(self) -> bool {
        &&& self.votes.len() == PROPOSAL_VOTE_OPTIONS_NUM
        &&& self.has_voted.len() <= MAX_VOTERS
        &&& self.has_voted_num == self.has_voted.len()
        &&& self.votes_labels.len() <= PROPOSAL_VOTE_OPTIONS_NUM
    }

    /// The type of the proposal, where its tag names one.
    pub open spec fn kind(self) -> Option<ProposalType> {
        ProposalType::of_tag(self.proposal_type)
    }
}

impl View for Proposal {
    type V = ProposalView;

    open spec fn view(&self) -> ProposalView {
        ProposalView {
            is_initialized: self.is_initialized,
            proposal_type: self.proposal_type,
            execution_amount: self.execution_amount,
            execution_amount_out: self.execution_amount_out,
            execution_source: self.execution_source@,
            execution_destination: self.execution_destination@,
            creator: self.creator@,
            squad_address: self.squad_address@,
            title: self.title@,
            description: self.description@,
            link: self.link@,
            votes_num: self.votes_num,
            has_voted_num: self.has_voted_num,
            has_voted: keys_view(self.has_voted@),
            votes: self.votes@,
            votes_labels: texts_view(self.votes_labels@),
            start_timestamp: self.start_timestamp,
            close_timestamp: self.close_timestamp,
            created_timestamp: self.created_timestamp,
            supply_at_execute: self.supply_at_execute,
            members_at_execute: self.members_at_execute,
            threshold_at_execute: self.threshold_at_execute,
            executed: self.executed,
            execute_ready: self.execute_ready,
            execution_date: self.execution_date,
            instruction_index: self.instruction_index,
            multiple_choice: self.multiple_choice,
            executed_by: self.executed_by@,
            proposal_index: self.proposal_index,
            reserved: self.reserved@,
        }
    }
}

/// The proposal that stands in a fresh, zeroed account.
pub open spec fn blank_proposal() -> ProposalView {
    ProposalView {
        is_initialized: false,
        proposal_type: 0,
        execution_amount: 0,
        execution_amount_out: 0,
        execution_source: zeros(32),
        execution_destination: zeros(32),
        creator: zeros(32),
        squad_address: zeros(32),
        title: Seq::empty(),
        description: Seq::empty(),
        link: Seq::empty(),
        votes_num: 0,
        has_voted_num: 0,
        has_voted: Seq::empty(),
        votes: Seq::new(5, |i: int| 0u64),
        votes_labels: Seq::empty(),
        start_timestamp: 0,
        close_timestamp: 0,
        created_timestamp: 0,
        supply_at_execute: 0,
        members_at_execute: 0,
        threshold_at_execute: 0,
        executed: false,
        execute_ready: false,
        execution_date: 0,
        instruction_index: 0,
        multiple_choice: false,
        executed_by: zeros(32),
        proposal_index: 0,
        reserved: Seq::new(16, |i: int| 0u64),
    }
}

/// What setting up a proposal leaves of the record before it, given the
/// fields that every type of proposal sets.
pub open spec fn saved(
    before: ProposalView,
    proposal_type: u8,
    title: Seq<char>,
    description: Seq<char>,
    link: Seq<char>,
    initializer: Seq<u8>,
    votes_num: u8,
    squad_address: Seq<u8>,
    vote_labels: Seq<Seq<char>>,
    start_timestamp: i64,
    close_timestamp: i64,
    created_timestamp: i64,
    amount: u64,
    proposal_index: u32,
) -> ProposalView {
    ProposalView {
        is_initialized: true,
        proposal_type,
        title,
        description,
        link,
        creator: initializer,
        votes_num,
        squad_address,
        votes_labels: vote_labels,
        start_timestamp,
        close_timestamp,
        created_timestamp,
        executed: false,
        execution_amount: amount,
        execute_ready: false,
        execution_date: 0,
        proposal_index,
        ..before
    }
}

impl Proposal {
    /// The proposal's invariant.
    pub open spec fn wf(&self) -> bool {
        self@.wf()
    }

    /// Whether the proposal keeps its invariant.
    pub fn is_valid(&self) -> (ok: bool)
        ensures
            ok == self.wf(),
    {
        self.votes.len() == PROPOSAL_VOTE_OPTIONS_NUM && self.has_voted.len() <= MAX_VOTERS
            && self.has_voted_num as usize == self.has_voted.len() && self.votes_labels.len()
            <= PROPOSAL_VOTE_OPTIONS_NUM
    }

    /// The record that stands in a fresh, zeroed account.
    pub fn blank() -> (p: Proposal)
        ensures
            p@ == blank_proposal(),
            p.wf(),
    {
        let mut votes: Vec<u64> = Vec::new();
        votes.push(0);
        votes.push(0);
        votes.push(0);
        votes.push(0);
        votes.push(0);
        let p = Proposal {
            is_initialized: false,
            proposal_type: 0,
            execution_amount: 0,
            execution_amount_out: 0,
            execution_source: Address::zero(),
            execution_destination: Address::zero(),
            creator: Address::zero(),
            squad_address: Address::zero(),
            title: String::new(),
            description: String::new(),
            link: String::new(),
            votes_num: 0,
            has_voted_num: 0,
            has_voted: Vec::new(),
            votes,
            votes_labels: Vec::new(),
            start_timestamp: 0,
            close_timestamp: 0,
            created_timestamp: 0,
            supply_at_execute: 0,
            members_at_execute: 0,
            threshold_at_execute: 0,
            executed: false,
            execute_ready: false,
            execution_date: 0,
            instruction_index: 0,
            multiple_choice: false,
            executed_by: Address::zero(),
            proposal_index: 0,
            reserved: [0u64; 16],
        };
        assert(p@.reserved =~= blank_proposal().reserved);
        assert(p@.votes =~= blank_proposal().votes);
        assert(p@.has_voted =~= blank_proposal().has_voted);
        assert(p@.votes_labels =~= blank_proposal().votes_labels);
        p
    }

    /// Whether the record has been set up.
    pub fn is_initialized(&self) -> (b: bool)
        ensures
            b == self.is_initialized,
    {
        self.is_initialized
    }

    /// Sets up a text proposal.
    pub fn save_text(
        &mut self,
        proposal_type: u8,
        title: String,
        description: String,
        link: String,
        initializer: &Address,
        votes_num: u8,
        squad_account_key: &Address,
        vote_labels: Vec<String>,
        start_timestamp: i64,
        close_timestamp: i64,
        created_timestamp: i64,
        proposal_index: u32,
    )
        ensures
            final(self)@ == saved(
                old(self)@,
                proposal_type,
                title@,
                description@,
                link@,
                initializer@,
                votes_num,
                squad_account_key@,
                texts_view(vote_labels@),
                start_timestamp,
                close_timestamp,
                created_timestamp,
                0,
                proposal_index,
            ),
    {
        self.is_initialized = true;
        self.proposal_type = proposal_type;
        self.title = title;
        self.description = description;
        self.link = link;
        self.creator = *initializer;
        self.votes_num = votes_num;
        self.squad_address = *squad_account_key;
        self.votes_labels = vote_labels;
        self.start_timestamp = start_timestamp;
        self.close_timestamp = close_timestamp;
        self.created_timestamp = created_timestamp;
        self.executed = false;
        self.execution_amount = 0;
        self.execute_ready = false;
        self.execution_date = 0;
        self.proposal_index = proposal_index;
    }

    /// Sets up a proposal to change support or quorum.
    pub fn save_core(
        &mut self,
        proposal_type: u8,
        title: String,
        description: String,
        link: String,
        initializer: &Address,
        votes_num: u8,
        squad_account_key: &Address,
        vote_labels: Vec<String>,
        start_timestamp: i64,
        close_timestamp: i64,
        created_timestamp: i64,
        amount: u64,
        proposal_index: u32,
    )
        ensures
            final(self)@ == saved(
                old(self)@,
                proposal_type,
                title@,
                description@,
                link@,
                initializer@,
                votes_num,
                squad_account_key@,
                texts_view(vote_labels@),
                start_timestamp,
                close_timestamp,
                created_timestamp,
                amount,
                proposal_index,
            ),
    {
        self.is_initialized = true;
        self.proposal_type = proposal_type;
        self.title = title;
        self.description = description;
        self.link = link;
        self.creator = *initializer;
        self.votes_num = votes_num;
        self.squad_address = *squad_account_key;
        self.votes_labels = vote_labels;
        self.start_timestamp = start_timestamp;
        self.close_timestamp = close_timestamp;
        self.execution_amount = amount;
        self.created_timestamp = created_timestamp;
        self.executed = false;
        self.execute_ready = false;
        self.execution_date = 0;
        self.proposal_index = proposal_index;
    }

    /// Sets up a proposal to pay out of the treasury.
    pub fn save_withdraw(
        &mut self,
        proposal_type: u8,
        title: String,
        description: String,
        link: String,
        source: &Address,
        destination: &Address,
        initializer: &Address,
        votes_num: u8,
        squad_account_key: &Address,
        vote_labels: Vec<String>,
        start_timestamp: i64,
        close_timestamp: i64,
        created_timestamp: i64,
        amount: u64,
        proposal_index: u32,
    )
        ensures
            final(self)@ == (ProposalView {
                execution_source: source@,
                execution_destination: destination@,
                ..saved(
                    old(self)@,
                    proposal_type,
                    title@,
                    description@,
                    link@,
                    initializer@,
                    votes_num,
                    squad_account_key@,
                    texts_view(vote_labels@),
                    start_timestamp,
                    close_timestamp,
                    created_timestamp,
                    amount,
                    proposal_index,
                )
            }),
    {
        self.is_initialized = true;
        self.proposal_type = proposal_type;
        self.title = title;
        self.description = description;
        self.link = link;
        self.execution_source = *source;
        self.execution_destination = *destination;
        self.creator = *initializer;
        self.votes_num = votes_num;
        self.squad_address = *squad_account_key;
        self.votes_labels = vote_labels;
        self.start_timestamp = start_timestamp;
        self.close_timestamp = close_timestamp;
        self.execution_amount = amount;
        self.created_timestamp = created_timestamp;
        self.executed = false;
        self.execute_ready = false;
        self.execution_date = 0;
        self.proposal_index = proposal_index;
    }

    /// Sets up a proposal about one member: the squad is recorded as the
    /// source, the member as the destination.
    pub fn save_member(
        &mut self,
        proposal_type: u8,
        title: String,
        description: String,
        link: String,
        member: &Address,
        initializer: &Address,
        votes_num: u8,
        squad_account: &Address,
        vote_labels: Vec<String>,
        start_timestamp: i64,
        close_timestamp: i64,
        created_timestamp: i64,
        amount: u64,
        proposal_index: u32,
    )
        ensures
            final(self)@ == (ProposalView {
                execution_source: squad_account@,
                execution_destination: member@,
                ..saved(
                    old(self)@,
                    proposal_type,
                    title@,
                    description@,
                    link@,
                    initializer@,
                    votes_num,
                    squad_account@,
                    texts_view(vote_labels@),
                    start_timestamp,
                    close_timestamp,
                    created_timestamp,
                    amount,
                    proposal_index,
                )
            }),
    {
        self.is_initialized = true;
        self.proposal_type = proposal_type;
        self.title = title;
        self.description = description;
        self.link = link;
        self.execution_source = *squad_account;
        self.execution_destination = *member;
        self.creator = *initializer;
        self.votes_num = votes_num;
        self.squad_address = *squad_account;
        self.votes_labels = vote_labels;
        self.start_timestamp = start_timestamp;
        self.close_timestamp = close_timestamp;
        self.created_timestamp = created_timestamp;
        self.executed = false;
        self.execution_amount = amount;
        self.execute_ready = false;
        self.execution_date = 0;
        self.proposal_index = proposal_index;
    }

    /// Sets up a proposal to swap treasury assets.
    pub fn save_swap(
        &mut self,
        proposal_type: u8,
        title: String,
        description: String,
        link: String,
        source: &Address,
        destination: &Address,
        initializer: &Address,
        votes_num: u8,
        squad_account: &Address,
        vote_labels: Vec<String>,
        start_timestamp: i64,
        close_timestamp: i64,
        created_timestamp: i64,
        amount: u64,
        minimum_out: u64,
        proposal_index: u32,
    )
        ensures
            final(self)@ == (ProposalView {
                execution_source: source@,
                execution_destination: destination@,
                execution_amount_out: minimum_out,
                ..saved(
                    old(self)@,
                    proposal_type,
                    title@,
                    description@,
                    link@,
                    initializer@,
                    votes_num,
                    squad_account@,
                    texts_view(vote_labels@),
                    start_timestamp,
                    close_timestamp,
                    created_timestamp,
                    amount,
                    proposal_index,
                )
            }),
    {
        self.is_initialized = true;
        self.proposal_type = proposal_type;
        self.title = title;
        self.description = description;
        self.link = link;
        self.execution_source = *source;
        self.execution_destination = *destination;
        self.creator = *initializer;
        self.votes_num = votes_num;
        self.squad_address = *squad_account;
        self.votes_labels = vote_labels;
        self.start_timestamp = start_timestamp;
        self.close_timestamp = close_timestamp;
        self.execution_amount = amount;
        self.execution_amount_out = minimum_out;
        self.created_timestamp = created_timestamp;
        self.executed = false;
        self.execute_ready = false;
        self.execution_date = 0;
        self.proposal_index = proposal_index;
    }
}

/// Whether the texts and lists of a proposal fit their fields.
pub open spec fn proposal_fits(p: ProposalView) -> bool {
    &&& text_bytes(p.title).len() <= PROPOSAL_TITLE_BYTES
    &&& text_bytes(p.description).len() <= PROPOSAL_DESCRIPTION_BYTES
    &&& text_bytes(p.link).len() <= PROPOSAL_LINK_BYTES
    &&& p.votes.len() <= PROPOSAL_VOTE_OPTIONS_NUM
    &&& p.has_voted.len() <= MAX_VOTERS
    &&& p.votes_labels.len() <= PROPOSAL_VOTE_OPTIONS_NUM
    &&& texts_fit(p.votes_labels, PROPOSAL_LABEL_BYTES as nat)
}

/// The five slots of a tally as persisted; a slot that the tally lacks
/// holds nothing.
pub open spec fn vote_fields(votes: Seq<u64>) -> Seq<Seq<u8>> {
    Seq::new(5, |i: int| spec_u64_to_le_bytes(if i < votes.len() { votes[i] } else { 0 }))
}

/// The five labels as persisted, each filled up with zero bytes; a label
/// that the list lacks is all zero bytes.
pub open spec fn label_fields(labels: Seq<Seq<char>>) -> Seq<Seq<u8>> {
    Seq::new(
        5,
        |i: int|
            padded(
                if i < labels.len() {
                    text_bytes(labels[i])
                } else {
                    Seq::<u8>::empty()
                },
                PROPOSAL_LABEL_BYTES as nat,
            ),
    )
}

/// A proposal as persisted over the bytes `prev` that its account held
/// before: each field at its place, a text filled up with zero bytes, the
/// list of voters laid over the start of its field, and the reserved place
/// left as it was.
pub open spec fn packed_proposal(p: ProposalView, prev: Seq<u8>) -> Seq<u8> {
    seq![flag_byte(p.is_initialized), p.proposal_type] + spec_u64_to_le_bytes(p.execution_amount)
        + spec_u64_to_le_bytes(p.execution_amount_out) + p.execution_source + p.execution_destination
        + p.creator + p.squad_address + padded(text_bytes(p.title), PROPOSAL_TITLE_BYTES as nat)
        + padded(text_bytes(p.description), PROPOSAL_DESCRIPTION_BYTES as nat) + padded(
        text_bytes(p.link),
        PROPOSAL_LINK_BYTES as nat,
    ) + seq![p.votes_num, p.has_voted_num] + overlay(
        prev.subrange(728, 5532),
        encode_keys(p.has_voted),
    ) + concat(vote_fields(p.votes)) + concat(label_fields(p.votes_labels)) + i64_le_bytes(
        p.start_timestamp,
    ) + i64_le_bytes(p.close_timestamp) + i64_le_bytes(p.created_timestamp) + spec_u64_to_le_bytes(
        p.supply_at_execute,
    ) + seq![
        p.members_at_execute,
        p.threshold_at_execute,
        flag_byte(p.executed),
        flag_byte(p.execute_ready),
    ] + i64_le_bytes(p.execution_date) + seq![p.instruction_index, flag_byte(p.multiple_choice)]
        + p.executed_by + spec_u32_to_le_bytes(p.proposal_index) + prev.subrange(5874, 6002)
}

/// The bytes of the field of voters that the recorded number of voters fills.
pub open spec fn voters_blob(bytes: Seq<u8>) -> Seq<u8> {
    bytes.subrange(728, 732 + 32 * bytes[727])
}

/// The bytes of label `i`.
pub open spec fn label_bytes(bytes: Seq<u8>, i: int) -> Seq<u8> {
    bytes.subrange(5572 + 44 * i, 5616 + 44 * i)
}

/// The bytes of slot `i` of the tally.
pub open spec fn slot_bytes(bytes: Seq<u8>, i: int) -> Seq<u8> {
    bytes.subrange(5532 + 8 * i, 5540 + 8 * i)
}

/// Whether bytes hold a proposal: enough of them, flags that are 0 or 1,
/// texts that are well-formed, and voters that are none or, within their
/// field, a length that is the recorded number followed by exactly that
/// many addresses.
pub open spec fn proposal_decodable(bytes: Seq<u8>) -> bool {
    &&& bytes.len() >= PROPOSAL_TOTAL_BYTES
    &&& bytes[0] <= 1
    &&& bytes[5826] <= 1
    &&& bytes[5827] <= 1
    &&& bytes[5837] <= 1
    &&& valid_utf8(bytes.subrange(146, 182))
    &&& valid_utf8(bytes.subrange(182, 678))
    &&& valid_utf8(bytes.subrange(678, 726))
    &&& bytes[727] > 0 ==> 4 + 32 * bytes[727] <= PROPOSAL_HAS_VOTED_BYTES && items_decodable(
        voters_blob(bytes),
        32,
    )
    &&& forall|i: int| 0 <= i < 5 ==> valid_utf8(#[trigger] label_bytes(bytes, i))
}

/// The proposal that decodable bytes hold.
pub open spec fn decoded_proposal(bytes: Seq<u8>) -> ProposalView {
    ProposalView {
        is_initialized: bytes[0] == 1,
        proposal_type: bytes[1],
        execution_amount: spec_u64_from_le_bytes(bytes.subrange(2, 10)),
        execution_amount_out: spec_u64_from_le_bytes(bytes.subrange(10, 18)),
        execution_source: bytes.subrange(18, 50),
        execution_destination: bytes.subrange(50, 82),
        creator: bytes.subrange(82, 114),
        squad_address: bytes.subrange(114, 146),
        title: decode_utf8(bytes.subrange(146, 182)),
        description: decode_utf8(bytes.subrange(182, 678)),
        link: decode_utf8(bytes.subrange(678, 726)),
        votes_num: bytes[726],
        has_voted_num: bytes[727],
        has_voted: if bytes[727] == 0 {
            Seq::empty()
        } else {
            decode_keys(voters_blob(bytes))
        },
        votes: Seq::new(5, |i: int| spec_u64_from_le_bytes(slot_bytes(bytes, i))),
        votes_labels: Seq::new(5, |i: int| decode_utf8(label_bytes(bytes, i))),
        start_timestamp: i64_from_le(bytes.subrange(5792, 5800)),
        close_timestamp: i64_from_le(bytes.subrange(5800, 5808)),
        created_timestamp: i64_from_le(bytes.subrange(5808, 5816)),
        supply_at_execute: spec_u64_from_le_bytes(bytes.subrange(5816, 5824)),
        members_at_execute: bytes[5824],
        threshold_at_execute: bytes[5825],
        executed: bytes[5826] == 1,
        execute_ready: bytes[5827] == 1,
        execution_date: i64_from_le(bytes.subrange(5828, 5836)),
        instruction_index: bytes[5836],
        multiple_choice: bytes[5837] == 1,
        executed_by: bytes.subrange(5838, 5870),
        proposal_index: spec_u32_from_le_bytes(bytes.subrange(5870, 5874)),
        reserved: Seq::new(16, |i: int| 0u64),
    }
}

impl Proposal {
    /// Writes the proposal over the bytes of its account. It is refused,
    /// and the bytes stay, where they are not of a proposal's width or a
    /// text or a list is longer than its field.
    pub fn pack_into_slice(&self, dst: &mut Vec<u8>) -> (r: Result<(), SquadError>)
        ensures
            r is Ok <==> old(dst)@.len() == PROPOSAL_TOTAL_BYTES && proposal_fits(self@),
            r is Ok ==> final(dst)@ == packed_proposal(self@, old(dst)@),
            r is Ok ==> final(dst)@.len() == PROPOSAL_TOTAL_BYTES,
            r is Err ==> final(dst)@ == old(dst)@,
            r is Err ==> r == Err::<(), SquadError>(
                if old(dst)@.len() != PROPOSAL_TOTAL_BYTES {
                    SquadError::MalformedRecord
                } else {
                    SquadError::CapacityExceeded
                },
            ),
    {
        if dst.len() != PROPOSAL_TOTAL_BYTES {
            return Err(SquadError::MalformedRecord);
        }
        let title = self.title.as_str().as_bytes();
        let description = self.description.as_str().as_bytes();
        let link = self.link.as_str().as_bytes();
        if title.len() > PROPOSAL_TITLE_BYTES || description.len() > PROPOSAL_DESCRIPTION_BYTES
            || link.len() > PROPOSAL_LINK_BYTES || self.votes.len() > PROPOSAL_VOTE_OPTIONS_NUM
            || self.has_voted.len() > MAX_VOTERS || self.votes_labels.len()
            > PROPOSAL_VOTE_OPTIONS_NUM || !crate::codec::all_texts_fit(
            &self.votes_labels,
            PROPOSAL_LABEL_BYTES,
        ) {
            assert(texts_view(self.votes_labels@) =~= Seq::new(
                self.votes_labels@.len(),
                |i: int| self.votes_labels@[i]@,
            ));
            return Err(SquadError::CapacityExceeded);
        }
        assert(texts_view(self.votes_labels@) =~= Seq::new(
            self.votes_labels@.len(),
            |i: int| self.votes_labels@[i]@,
        ));
        let blob = match borsh_encode_keys(&self.has_voted) {
            Some(blob) => blob,
            None => {
                return Err(SquadError::CapacityExceeded);
            },
        };
        proof {
            lemma_auto_spec_u32_to_from_le_bytes();
            lemma_auto_spec_u64_to_from_le_bytes();
            lemma_concat_len(self@.has_voted, 32);
        }
        let prev = dst.as_slice();
        let mut out: Vec<u8> = Vec::new();
        out.push(flag_to_byte(self.is_initialized));
        out.push(self.proposal_type);
        assert(out@ =~= seq![flag_byte(self.is_initialized), self.proposal_type]);
        put(&mut out, u64_to_le_bytes(self.execution_amount).as_slice());
        put(&mut out, u64_to_le_bytes(self.execution_amount_out).as_slice());
        put(&mut out, self.execution_source.to_vec().as_slice());
        put(&mut out, self.execution_destination.to_vec().as_slice());
        put(&mut out, self.creator.to_vec().as_slice());
        put(&mut out, self.squad_address.to_vec().as_slice());
        put_padded(&mut out, title, PROPOSAL_TITLE_BYTES);
        put_padded(&mut out, description, PROPOSAL_DESCRIPTION_BYTES);
        put_padded(&mut out, link, PROPOSAL_LINK_BYTES);
        let mut counts: Vec<u8> = Vec::new();
        counts.push(self.votes_num);
        counts.push(self.has_voted_num);
        assert(counts@ =~= seq![self.votes_num, self.has_voted_num]);
        put(&mut out, counts.as_slice());
        put_over(&mut out, blob.as_slice(), slice_subrange(prev, 728, 5532));
        let ghost base = out@;
        let ghost slots = vote_fields(self@.votes);
        let mut i: usize = 0;
        while i < 5
            invariant
                i <= 5,
                self.votes@.len() <= 5,
                slots == vote_fields(self@.votes),
                out@ == base + concat(slots.take(i as int)),
                out@.len() == base.len() + 8 * i,
            decreases 5 - i,
        {
            proof {
                lemma_concat_step(slots, i as int);
                lemma_auto_spec_u64_to_from_le_bytes();
            }
            let slot: u64 = if i < self.votes.len() {
                self.votes[i]
            } else {
                0
            };
            put(&mut out, u64_to_le_bytes(slot).as_slice());
            assert(out@ =~= base + concat(slots.take(i as int + 1)));
            i += 1;
        }
        assert(slots.take(5) == slots);
        let ghost base = out@;
        let ghost labels = label_fields(self@.votes_labels);
        let empty: Vec<u8> = Vec::new();
        let mut i: usize = 0;
        while i < 5
            invariant
                i <= 5,
                self.votes_labels@.len() <= 5,
                empty@.len() == 0,
                texts_fit(self@.votes_labels, PROPOSAL_LABEL_BYTES as nat),
                labels == label_fields(self@.votes_labels),
                out@ == base + concat(labels.take(i as int)),
                out@.len() == base.len() + 44 * i,
            decreases 5 - i,
        {
            proof {
                lemma_concat_step(labels, i as int);
            }
            if i < self.votes_labels.len() {
                assert(self@.votes_labels[i as int] == self.votes_labels@[i as int]@);
                put_padded(&mut out, self.votes_labels[i].as_str().as_bytes(), PROPOSAL_LABEL_BYTES);
            } else {
                assert(empty@ =~= Seq::<u8>::empty());
                put_padded(&mut out, empty.as_slice(), PROPOSAL_LABEL_BYTES);
            }
            assert(out@ =~= base + concat(labels.take(i as int + 1)));
            i += 1;
        }
        assert(labels.take(5) == labels);
        put(&mut out, i64_to_le_bytes(self.start_timestamp).as_slice());
        put(&mut out, i64_to_le_bytes(self.close_timestamp).as_slice());
        put(&mut out, i64_to_le_bytes(self.created_timestamp).as_slice());
        put(&mut out, u64_to_le_bytes(self.supply_at_execute).as_slice());
        let mut marks: Vec<u8> = Vec::new();
        marks.push(self.members_at_execute);
        marks.push(self.threshold_at_execute);
        marks.push(flag_to_byte(self.executed));
        marks.push(flag_to_byte(self.execute_ready));
        assert(marks@ =~= seq![
            self.members_at_execute,
            self.threshold_at_execute,
            flag_byte(self.executed),
            flag_byte(self.execute_ready),
        ]);
        put(&mut out, marks.as_slice());
        put(&mut out, i64_to_le_bytes(self.execution_date).as_slice());
        let mut tail: Vec<u8> = Vec::new();
        tail.push(self.instruction_index);
        tail.push(flag_to_byte(self.multiple_choice));
        assert(tail@ =~= seq![self.instruction_index, flag_byte(self.multiple_choice)]);
        put(&mut out, tail.as_slice());
        put(&mut out, self.executed_by.to_vec().as_slice());
        put(&mut out, u32_to_le_bytes(self.proposal_index).as_slice());
        put(&mut out, slice_subrange(prev, 5874, 6002));
        *dst = out;
        Ok(())
    }

    /// Reads a proposal from the first bytes of `src`.
    pub fn unpack_from_slice(src: &[u8]) -> (r: Result<Proposal, SquadError>)
        ensures
            r is Ok <==> proposal_decodable(src@),
            r is Ok ==> r.unwrap()@ == decoded_proposal(src@) && r.unwrap().wf(),
            r is Err ==> r == Err::<Proposal, SquadError>(SquadError::MalformedRecord),
    {
        if src.len() < PROPOSAL_TOTAL_BYTES {
            return Err(SquadError::MalformedRecord);
        }
        let is_initialized = match flag_from_byte(src[0]) {
            Some(b) => b,
            None => {
                return Err(SquadError::MalformedRecord);
            },
        };
        let executed = match flag_from_byte(src[5826]) {
            Some(b) => b,
            None => {
                return Err(SquadError::MalformedRecord);
            },
        };
        let execute_ready = match flag_from_byte(src[5827]) {
            Some(b) => b,
            None => {
                return Err(SquadError::MalformedRecord);
            },
        };
        let multiple_choice = match flag_from_byte(src[5837]) {
            Some(b) => b,
            None => {
                return Err(SquadError::MalformedRecord);
            },
        };
        let title = match read_text(src, 146, 182) {
            Some(s) => s,
            None => {
                return Err(SquadError::MalformedRecord);
            },
        };
        let description = match read_text(src, 182, 678) {
            Some(s) => s,
            None => {
                return Err(SquadError::MalformedRecord);
            },
        };
        let link = match read_text(src, 678, 726) {
            Some(s) => s,
            None => {
                return Err(SquadError::MalformedRecord);
            },
        };
        let has_voted_num = src[727];
        let mut has_voted: Vec<Address> = Vec::new();
        if has_voted_num > 0 {
            let end: usize = 732 + 32 * (has_voted_num as usize);
            if end > 728 + PROPOSAL_HAS_VOTED_BYTES {
                return Err(SquadError::MalformedRecord);
            }
            has_voted = match borsh_decode_keys(slice_subrange(src, 728, end)) {
                Some(keys) => keys,
                None => {
                    return Err(SquadError::MalformedRecord);
                },
            };
            assert(keys_view(has_voted@).len() == decode_keys(voters_blob(src@)).len());
        }
        assert(keys_view(has_voted@) =~= decoded_proposal(src@).has_voted);
        let mut votes: Vec<u64> = Vec::new();
        let mut i: usize = 0;
        while i < 5
            invariant
                i <= 5,
                src@.len() >= PROPOSAL_TOTAL_BYTES,
                votes@.len() == i,
                forall|j: int| 0 <= j < i ==> votes@[j] == spec_u64_from_le_bytes(slot_bytes(src@, j)),
            decreases 5 - i,
        {
            votes.push(u64_from_le_bytes(slice_subrange(src, 5532 + 8 * i, 5540 + 8 * i)));
            i += 1;
        }
        assert(votes@ =~= decoded_proposal(src@).votes);
        let mut votes_labels: Vec<String> = Vec::new();
        let mut i: usize = 0;
        while i < 5
            invariant
                i <= 5,
                src@.len() >= PROPOSAL_TOTAL_BYTES,
                votes_labels@.len() == i,
                forall|j: int| 0 <= j < i ==> valid_utf8(#[trigger] label_bytes(src@, j)),
                forall|j: int| 0 <= j < i ==> votes_labels@[j]@ == decode_utf8(label_bytes(src@, j)),
            decreases 5 - i,
        {
            match read_text(src, 5572 + 44 * i, 5616 + 44 * i) {
                Some(label) => {
                    votes_labels.push(label);
                },
                None => {
                    assert(!valid_utf8(label_bytes(src@, i as int)));
                    return Err(SquadError::MalformedRecord);
                },
            }
            i += 1;
        }
        assert(texts_view(votes_labels@) =~= decoded_proposal(src@).votes_labels);
        let proposal = Proposal {
            is_initialized,
            proposal_type: src[1],
            execution_amount: u64_from_le_bytes(slice_subrange(src, 2, 10)),
            execution_amount_out: u64_from_le_bytes(slice_subrange(src, 10, 18)),
            execution_source: Address::from_slice(slice_subrange(src, 18, 50)),
            execution_destination: Address::from_slice(slice_subrange(src, 50, 82)),
            creator: Address::from_slice(slice_subrange(src, 82, 114)),
            squad_address: Address::from_slice(slice_subrange(src, 114, 146)),
            title,
            description,
            link,
            votes_num: src[726],
            has_voted_num,
            has_voted,
            votes,
            votes_labels,
            start_timestamp: i64_from_le_bytes(slice_subrange(src, 5792, 5800)),
            close_timestamp: i64_from_le_bytes(slice_subrange(src, 5800, 5808)),
            created_timestamp: i64_from_le_bytes(slice_subrange(src, 5808, 5816)),
            supply_at_execute: u64_from_le_bytes(slice_subrange(src, 5816, 5824)),
            members_at_execute: src[5824],
            threshold_at_execute: src[5825],
            executed,
            execute_ready,
            execution_date: i64_from_le_bytes(slice_subrange(src, 5828, 5836)),
            instruction_index: src[5836],
            multiple_choice,
            executed_by: Address::from_slice(slice_subrange(src, 5838, 5870)),
            proposal_index: u32_from_le_bytes(slice_subrange(src, 5870, 5874)),
            reserved: [0u64; 16],
        };
        assert(proposal.reserved@ =~= Seq::new(16, |i: int| 0u64));
        Ok(proposal)
    }

    /// Reads a proposal from bytes of exactly a proposal's width.
    pub fn unpack_unchecked(src: &[u8]) -> (r: Result<Proposal, SquadError>)
        ensures
            r is Ok <==> src@.len() == PROPOSAL_TOTAL_BYTES && proposal_decodable(src@),
            r is Ok ==> r.unwrap()@ == decoded_proposal(src@) && r.unwrap().wf(),
            r is Err ==> r == Err::<Proposal, SquadError>(SquadError::MalformedRecord),
    {
        if src.len() != PROPOSAL_TOTAL_BYTES {
            return Err(SquadError::MalformedRecord);
        }
        Proposal::unpack_from_slice(src)
    }
}

} // verus!
