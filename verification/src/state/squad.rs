//! The squad record: configuration, treasury anchors, roster and the two
//! sequence counters, with its persisted layout.

use vstd::prelude::*;
use vstd::bytes::*;
use vstd::slice::*;
use vstd::utf8::*;
use crate::address::Address;
use crate::codec::{
    borsh_decode_pairs, borsh_encode_pairs, decode_pairs, encode_pairs, flag_byte, flag_from_byte,
    flag_to_byte, i64_from_le, i64_from_le_bytes, i64_le_bytes, i64_to_le_bytes, items_decodable,
    joined, lemma_concat_len, overlay, padded, pairs_view, put, put_over, put_padded, read_text,
    text_bytes, zeros,
};
use crate::error::SquadError;
pub use crate::roster::Member;
use crate::roster::{lemma_map_of_pairs, lemma_with_pairs_bound, with_pairs, Roster, MAX_MEMBERS};

verus! {

/// How voting power is allocated in a squad.
#[derive(Clone, Copy, Debug, PartialEq, Eq, Structural)]
pub enum AllocationType {
    /// Voting power is the balance of a governance token.
    TeamCoordination,
    /// Each member has one vote.
    Multisig,
}

/// The tag of team coordination in a squad record.
pub const TEAM_COORDINATION: u8 = 1;

/// The tag of multisig in a squad record.
pub const MULTISIG: u8 = 2;

impl AllocationType {
    /// The tag that stands for the mode in a squad record.
    pub open spec fn tag(self) -> u8 {
        match self {
            AllocationType::TeamCoordination => TEAM_COORDINATION,
            AllocationType::Multisig => MULTISIG,
        }
    }

    /// The mode that a tag stands for.
    pub open spec fn of_tag(tag: u8) -> Option<AllocationType> {
        if tag == TEAM_COORDINATION {
            Some(AllocationType::TeamCoordination)
        } else if tag == MULTISIG {
            Some(AllocationType::Multisig)
        } else {
            None
        }
    }

    /// The tag that stands for the mode in a squad record.
    pub fn as_u8(&self) -> (tag: u8)
        ensures
            tag == self.tag(),
    {
        match self {
            AllocationType::TeamCoordination => TEAM_COORDINATION,
            AllocationType::Multisig => MULTISIG,
        }
    }

    /// The mode that a tag stands for.
    pub fn from_u8(tag: u8) -> (r: Option<AllocationType>)
        ensures
            r == AllocationType::of_tag(tag),
    {
        if tag == TEAM_COORDINATION {
            Some(AllocationType::TeamCoordination)
        } else if tag == MULTISIG {
            Some(AllocationType::Multisig)
        } else {
            None
        }
    }
}

/// The width of a squad's name.
pub const SQUAD_NAME_BYTES: usize = 24;

/// The width of a squad's description.
pub const SQUAD_DESCRIPTION_BYTES: usize = 36;

/// The width of a squad's token symbol.
pub const SQUAD_TOKEN_BYTES: usize = 6;

/// The width of a squad's random identifier.
pub const SQUAD_RANDOM_ID_BYTES: usize = 10;

/// The width of the roster's field: a full roster with its length.
pub const SQUAD_MEMBERS_BYTES: usize = 9604;

/// The width of a persisted squad.
pub const SQUAD_TOTAL_BYTES: usize = 10228;

/// A squad.
#[derive(Clone, Debug, PartialEq, Eq)]
pub struct Squad {
    /// Whether the record has been set up.
    pub is_initialized: bool,
    /// Whether the squad is still a draft that its admin may fill.
    pub open: bool,
    pub emergency_lock: bool,
    /// The tag of the allocation mode.
    pub allocation_type: u8,
    /// The support that approval takes, in percent (team coordination).
    pub vote_support: u8,
    /// The quorum: a percentage (team coordination) or a count of members (multisig).
    pub vote_quorum: u8,
    pub core_threshold: u8,
    pub squad_name: String,
    pub description: String,
    pub token: String,
    pub future_setting_1: u8,
    pub future_setting_2: u8,
    pub future_setting_3: u8,
    pub future_setting_4: u8,
    pub future_setting_5: u8,
    /// Who may fill the draft.
    pub admin: Address,
    /// The treasury.
    pub sol_account: Address,
    /// The mint of the governance token.
    pub mint_address: Address,
    pub future_address1: Address,
    pub future_address2: Address,
    pub future_address3: Address,
    pub future_address4: Address,
    pub future_address5: Address,
    /// The sequence number of the last proposal created.
    pub proposal_nonce: u32,
    pub created_on: i64,
    /// The members.
    pub members: Roster,
    pub random_id: String,
    pub child_index: u32,
    /// The value of `proposal_nonce` when membership or equity last changed.
    pub member_lock_index: u32,
    pub reserved: [u64; 32],
}

/// A squad as a mathematical value.
pub ghost struct SquadView {
    pub is_initialized: bool,
    pub open: bool,
    pub emergency_lock: bool,
    pub allocation_type: u8,
    pub vote_support: u8,
    pub vote_quorum: u8,
    pub core_threshold: u8,
    pub squad_name: Seq<char>,
    pub description: Seq<char>,
    pub token: Seq<char>,
    pub future_setting_1: u8,
    pub future_setting_2: u8,
    pub future_setting_3: u8,
    pub future_setting_4: u8,
    pub future_setting_5: u8,
    pub admin: Seq<u8>,
    pub sol_account: Seq<u8>,
    pub mint_address: Seq<u8>,
    pub future_address1: Seq<u8>,
    pub future_address2: Seq<u8>,
    pub future_address3: Seq<u8>,
    pub future_address4: Seq<u8>,
    pub future_address5: Seq<u8>,
    pub proposal_nonce: u32,
    pub created_on: i64,
    /// Each member's address with the member's equity account.
    pub members: Map<Seq<u8>, Seq<u8>>,
    pub random_id: Seq<char>,
    pub child_index: u32,
    pub member_lock_index: u32,
    pub reserved: Seq<u64>,
}

impl SquadView {
    /// The number of members.
    pub open spec fn member_count(self) -> nat {
        self.members.len()
    }

    /// Whether the address is a member.
    pub open spec fn is_member(self, key: Seq<u8>) -> bool {
        self.members.contains_key(key)
    }

    /// Whether the squad votes one member, one vote.
    pub open spec fn is_multisig(self) -> bool {
        self.allocation_type == MULTISIG
    }

    /// Whether the squad votes by token balance.
    pub open spec fn is_team(self) -> bool {
        self.allocation_type == TEAM_COORDINATION
    }

    /// The invariant of a multisig: its quorum can be met by its members.
    pub open spec fn quorum_satisfiable(self) -> bool {
        self.is_multisig() ==> self.vote_quorum <= self.member_count()
    }

    /// The invariant of a team: quorum and support are percentages from 1
    /// to 100.
    pub open spec fn percentages_valid(self) -> bool {
        self.is_team() ==> 1 <= self.vote_quorum <= 100 && 1 <= self.vote_support <= 100
    }
}

impl View for Squad {
    type V = SquadView;

    open spec fn view(&self) -> SquadView {
        SquadView {
            is_initialized: self.is_initialized,
            open: self.open,
            emergency_lock: self.emergency_lock,
            allocation_type: self.allocation_type,
            vote_support: self.vote_support,
            vote_quorum: self.vote_quorum,
            core_threshold: self.core_threshold,
            squad_name: self.squad_name@,
            description: self.description@,
            token: self.token@,
            future_setting_1: self.future_setting_1,
            future_setting_2: self.future_setting_2,
            future_setting_3: self.future_setting_3,
            future_setting_4: self.future_setting_4,
            future_setting_5: self.future_setting_5,
            admin: self.admin@,
            sol_account: self.sol_account@,
            mint_address: self.mint_address@,
            future_address1: self.future_address1@,
            future_address2: self.future_address2@,
            future_address3: self.future_address3@,
            future_address4: self.future_address4@,
            future_address5: self.future_address5@,
            proposal_nonce: self.proposal_nonce,
            created_on: self.created_on,
            members: self.members@,
            random_id: self.random_id@,
            child_index: self.child_index,
            member_lock_index: self.member_lock_index,
            reserved: self.reserved@,
        }
    }
}

/// The squad that stands in a fresh, zeroed account.
pub open spec fn blank_squad() -> SquadView {
    SquadView {
        is_initialized: false,
        open: false,
        emergency_lock: false,
        allocation_type: 0,
        vote_support: 0,
        vote_quorum: 0,
        core_threshold: 0,
        squad_name: Seq::empty(),
        description: Seq::empty(),
        token: Seq::empty(),
        future_setting_1: 0,
        future_setting_2: 0,
        future_setting_3: 0,
        future_setting_4: 0,
        future_setting_5: 0,
        admin: zeros(32),
        sol_account: zeros(32),
        mint_address: zeros(32),
        future_address1: zeros(32),
        future_address2: zeros(32),
        future_address3: zeros(32),
        future_address4: zeros(32),
        future_address5: zeros(32),
        proposal_nonce: 0,
        created_on: 0,
        members: Map::empty(),
        random_id: Seq::empty(),
        child_index: 0,
        member_lock_index: 0,
        reserved: Seq::new(32, |i: int| 0u64),
    }
}

impl Squad {
    /// The squad's invariant: the roster's.
    pub open spec fn wf(&self) -> bool {
        self.members.wf()
    }

    /// Whether the squad keeps its invariant.
    pub fn is_valid(&self) -> (ok: bool)
        ensures
            ok == self.wf(),
    {
        self.members.is_valid()
    }

    /// The record that stands in a fresh, zeroed account.
    pub fn blank() -> (s: Squad)
        ensures
            s.wf(),
            s@ == blank_squad(),
    {
        let s = Squad {
            is_initialized: false,
            open: false,
            emergency_lock: false,
            allocation_type: 0,
            vote_support: 0,
            vote_quorum: 0,
            core_threshold: 0,
            squad_name: String::new(),
            description: String::new(),
            token: String::new(),
            future_setting_1: 0,
            future_setting_2: 0,
            future_setting_3: 0,
            future_setting_4: 0,
            future_setting_5: 0,
            admin: Address::zero(),
            sol_account: Address::zero(),
            mint_address: Address::zero(),
            future_address1: Address::zero(),
            future_address2: Address::zero(),
            future_address3: Address::zero(),
            future_address4: Address::zero(),
            future_address5: Address::zero(),
            proposal_nonce: 0,
            created_on: 0,
            members: Roster::new(),
            random_id: String::new(),
            child_index: 0,
            member_lock_index: 0,
            reserved: [0u64; 32],
        };
        assert(s.reserved@ =~= Seq::new(32, |i: int| 0u64));
        s
    }

    /// Whether the record has been set up.
    pub fn is_initialized(&self) -> (b: bool)
        ensures
            b == self.is_initialized,
    {
        self.is_initialized
    }

    /// The number of members.
    pub fn member_count(&self) -> (n: usize)
        requires
            self.wf(),
        ensures
            n == self@.member_count(),
            n <= MAX_MEMBERS,
    {
        self.members.len()
    }

    /// Records a member under an address, in place of what was recorded under
    /// it before. A new address is refused by a full roster.
    pub fn add_member(&mut self, key: Address, value: Member) -> (r: Result<(), SquadError>)
        requires
            old(self).wf(),
        ensures
            final(self).wf(),
            r is Err <==> !old(self)@.is_member(key@) && old(self)@.member_count() >= MAX_MEMBERS,
            r is Err ==> r == Err::<(), SquadError>(SquadError::CapacityExceeded) && final(self)@ == old(
                self,
            )@,
            r is Ok ==> final(self)@ == (SquadView {
                members: old(self)@.members.insert(key@, value.equity_token_account@),
                ..old(self)@
            }),
    {
        proof {
            self.members.lemma_count();
        }
        self.members.insert(key, value)
    }

    /// Strikes an address from the roster; an address that is no member
    /// leaves the roster as it is.
    pub fn remove_member(&mut self, key: &Address)
        requires
            old(self).wf(),
        ensures
            final(self).wf(),
            final(self)@ == (SquadView { members: old(self)@.members.remove(key@), ..old(self)@ }),
    {
        self.members.remove(key)
    }

    /// Whether the address is a member.
    pub fn member_exists(&self, key: &Address) -> (r: bool)
        ensures
            r == self@.is_member(key@),
    {
        self.members.contains(key)
    }

    /// Sets up the record of a team-coordination squad, as a draft.
    pub fn setup_tc(
        &mut self,
        allocation_type: u8,
        vote_support: u8,
        vote_quorum: u8,
        core_threshold: u8,
        squad_name: String,
        description: String,
        token: String,
        initializer: &Address,
        mint_owner: &Address,
        sol_account_owner_pda: &Address,
        created_on: i64,
        random_id: String,
    )
        ensures
            final(self).members == old(self).members,
            final(self)@ == (SquadView {
                is_initialized: true,
                open: true,
                emergency_lock: false,
                allocation_type,
                vote_support,
                vote_quorum,
                core_threshold,
                squad_name: squad_name@,
                description: description@,
                token: token@,
                admin: initializer@,
                mint_address: mint_owner@,
                sol_account: sol_account_owner_pda@,
                created_on,
                random_id: random_id@,
                ..old(self)@
            }),
    {
        self.is_initialized = true;
        self.open = true;
        self.emergency_lock = false;
        self.allocation_type = allocation_type;
        self.vote_support = vote_support;
        self.vote_quorum = vote_quorum;
        self.core_threshold = core_threshold;
        self.squad_name = squad_name;
        self.description = description;
        self.token = token;
        self.admin = *initializer;
        self.mint_address = *mint_owner;
        self.sol_account = *sol_account_owner_pda;
        self.created_on = created_on;
        self.random_id = random_id;
    }

    /// Sets up the record of a multisig squad, which is never a draft.
    pub fn setup_ms(
        &mut self,
        vote_quorum: u8,
        squad_name: String,
        description: String,
        initializer: &Address,
        sol_account_owner_pda: &Address,
        created_on: i64,
        random_id: String,
    )
        ensures
            final(self).members == old(self).members,
            final(self)@ == (SquadView {
                is_initialized: true,
                open: false,
                emergency_lock: false,
                allocation_type: MULTISIG,
                vote_support: 0,
                vote_quorum,
                squad_name: squad_name@,
                description: description@,
                admin: initializer@,
                sol_account: sol_account_owner_pda@,
                created_on,
                random_id: random_id@,
                ..old(self)@
            }),
    {
        self.is_initialized = true;
        self.open = false;
        self.emergency_lock = false;
        self.allocation_type = MULTISIG;
        self.vote_support = 0;
        self.vote_quorum = vote_quorum;
        self.squad_name = squad_name;
        self.description = description;
        self.admin = *initializer;
        self.sol_account = *sol_account_owner_pda;
        self.created_on = created_on;
        self.random_id = random_id;
    }
}

/// The number spelled by the first four bytes, least significant first.
pub fn count_from_le(array: &[u8]) -> (n: usize)
    requires
        array@.len() >= 4,
    ensures
        n == spec_u32_from_le_bytes(array@.subrange(0, 4)),
{
    u32_from_le_bytes(slice_subrange(array, 0, 4)) as usize
}

/// The four bytes of a number, least significant first.
pub fn transform_u32_to_array_of_u8(x: u32) -> (a: [u8; 4])
    ensures
        a@ == spec_u32_to_le_bytes(x),
{
    proof {
        lemma_auto_spec_u32_to_from_le_bytes();
    }
    let v = u32_to_le_bytes(x);
    let a = [v[0], v[1], v[2], v[3]];
    assert(a@ =~= v@);
    a
}

/// Whether the texts of a squad fit their fields.
pub open spec fn squad_fits(s: SquadView) -> bool {
    &&& text_bytes(s.squad_name).len() <= SQUAD_NAME_BYTES
    &&& text_bytes(s.description).len() <= SQUAD_DESCRIPTION_BYTES
    &&& text_bytes(s.token).len() <= SQUAD_TOKEN_BYTES
    &&& text_bytes(s.random_id).len() <= SQUAD_RANDOM_ID_BYTES
}

/// A squad as persisted over the bytes `prev` that its account held before:
/// each field at its place, a text filled up with zero bytes, the roster
/// laid over the start of its field, and the places that no field fills
/// left as they were. `roster` is the roster in the order of addresses.
pub open spec fn packed_squad(s: SquadView, roster: Seq<(Seq<u8>, Seq<u8>)>, prev: Seq<u8>) -> Seq<u8> {
    seq![
        flag_byte(s.is_initialized),
        flag_byte(s.open),
        flag_byte(s.emergency_lock),
        s.allocation_type,
        s.vote_support,
        s.vote_quorum,
        s.core_threshold,
    ] + padded(text_bytes(s.squad_name), SQUAD_NAME_BYTES as nat) + padded(
        text_bytes(s.description),
        SQUAD_DESCRIPTION_BYTES as nat,
    ) + padded(text_bytes(s.token), SQUAD_TOKEN_BYTES as nat) + prev.subrange(73, 78) + s.admin
        + s.mint_address + s.sol_account + prev.subrange(174, 334) + spec_u32_to_le_bytes(
        s.proposal_nonce,
    ) + i64_le_bytes(s.created_on) + spec_u32_to_le_bytes(encode_pairs(roster).len() as u32)
        + overlay(prev.subrange(350, 9954), encode_pairs(roster)) + padded(
        text_bytes(s.random_id),
        SQUAD_RANDOM_ID_BYTES as nat,
    ) + prev.subrange(9964, 9968) + spec_u32_to_le_bytes(s.member_lock_index) + prev.subrange(
        9972,
        10228,
    )
}

/// The length that the bytes record for the roster's encoding.
pub open spec fn recorded_roster_len(bytes: Seq<u8>) -> int {
    spec_u32_from_le_bytes(bytes.subrange(346, 350)) as int
}

/// Whether bytes hold a squad: enough of them, flags that are 0 or 1, texts
/// that are well-formed, and a roster that is empty or a length followed by
/// exactly that many pairs within the roster's field.
pub open spec fn squad_decodable(bytes: Seq<u8>) -> bool {
    &&& bytes.len() >= SQUAD_TOTAL_BYTES
    &&& bytes[0] <= 1
    &&& bytes[1] <= 1
    &&& bytes[2] <= 1
    &&& recorded_roster_len(bytes) <= SQUAD_MEMBERS_BYTES
    &&& recorded_roster_len(bytes) > 0 ==> items_decodable(
        bytes.subrange(350, 350 + recorded_roster_len(bytes)),
        64,
    )
    &&& valid_utf8(bytes.subrange(7, 31))
    &&& valid_utf8(bytes.subrange(31, 67))
    &&& valid_utf8(bytes.subrange(67, 73))
    &&& valid_utf8(bytes.subrange(9954, 9964))
}

/// The squad that decodable bytes hold. Of two entries for one address the
/// later one counts.
pub open spec fn decoded_squad(bytes: Seq<u8>) -> SquadView {
    SquadView {
        is_initialized: bytes[0] == 1,
        open: bytes[1] == 1,
        emergency_lock: bytes[2] == 1,
        allocation_type: bytes[3],
        vote_support: bytes[4],
        vote_quorum: bytes[5],
        core_threshold: bytes[6],
        squad_name: decode_utf8(bytes.subrange(7, 31)),
        description: decode_utf8(bytes.subrange(31, 67)),
        token: decode_utf8(bytes.subrange(67, 73)),
        future_setting_1: bytes[73],
        future_setting_2: bytes[74],
        future_setting_3: bytes[75],
        future_setting_4: bytes[76],
        future_setting_5: bytes[77],
        admin: bytes.subrange(78, 110),
        mint_address: bytes.subrange(110, 142),
        sol_account: bytes.subrange(142, 174),
        future_address1: bytes.subrange(174, 206),
        future_address2: bytes.subrange(206, 238),
        future_address3: bytes.subrange(238, 270),
        future_address4: bytes.subrange(270, 302),
        future_address5: bytes.subrange(302, 334),
        proposal_nonce: spec_u32_from_le_bytes(bytes.subrange(334, 338)),
        created_on: i64_from_le(bytes.subrange(338, 346)),
        members: if recorded_roster_len(bytes) == 0 {
            Map::empty()
        } else {
            with_pairs(
                Map::empty(),
                decode_pairs(bytes.subrange(350, 350 + recorded_roster_len(bytes))),
            )
        },
        random_id: decode_utf8(bytes.subrange(9954, 9964)),
        child_index: 0,
        member_lock_index: spec_u32_from_le_bytes(bytes.subrange(9968, 9972)),
        reserved: Seq::new(32, |i: int| 0u64),
    }
}

impl Squad {
    /// The roster as persisted: pairs of address and equity account in the
    /// order of addresses.
    pub open spec fn roster(&self) -> Seq<(Seq<u8>, Seq<u8>)> {
        pairs_view(self.members.pairs())
    }

    /// The roster as persisted stands for the squad's members.
    pub proof fn lemma_roster(&self)
        requires
            self.wf(),
        ensures
            self@.members == with_pairs(Map::empty(), self.roster()),
            self.roster().len() <= MAX_MEMBERS,
            forall|i: int|
                0 <= i < self.roster().len() ==> (#[trigger] self.roster()[i]).0.len() == 32
                    && self.roster()[i].1.len() == 32,
    {
        lemma_map_of_pairs(self.members.entries@);
        assert(self.roster() =~= Seq::new(
            self.members.entries@.len(),
            |i: int|
                (
                    self.members.entries@[i].key@,
                    self.members.entries@[i].member.equity_token_account@,
                ),
        ));
    }

    /// Writes the squad over the bytes of its account. It is refused, and
    /// the bytes stay, where they are not of a squad's width, a text is
    /// longer than its field or the roster is over its bound. The roster
    /// that a well-formed squad persists stands for its members.
    pub fn pack_into_slice(&self, dst: &mut Vec<u8>) -> (r: Result<(), SquadError>)
        ensures
            r is Ok <==> old(dst)@.len() == SQUAD_TOTAL_BYTES && squad_fits(self@) && self.roster().len()
                <= MAX_MEMBERS,
            r is Ok ==> final(dst)@ == packed_squad(self@, self.roster(), old(dst)@),
            self.wf() ==> self@.members == with_pairs(Map::empty(), self.roster()),
            r is Ok ==> final(dst)@.len() == SQUAD_TOTAL_BYTES,
            r is Err ==> final(dst)@ == old(dst)@,
            r is Err ==> r == Err::<(), SquadError>(
                if old(dst)@.len() != SQUAD_TOTAL_BYTES {
                    SquadError::MalformedRecord
                } else {
                    SquadError::CapacityExceeded
                },
            ),
    {
        proof {
            if self.wf() {
                self.lemma_roster();
            }
        }
        if dst.len() != SQUAD_TOTAL_BYTES {
            return Err(SquadError::MalformedRecord);
        }
        let name = self.squad_name.as_str().as_bytes();
        let description = self.description.as_str().as_bytes();
        let token = self.token.as_str().as_bytes();
        let random_id = self.random_id.as_str().as_bytes();
        if name.len() > SQUAD_NAME_BYTES || description.len() > SQUAD_DESCRIPTION_BYTES || token.len()
            > SQUAD_TOKEN_BYTES || random_id.len() > SQUAD_RANDOM_ID_BYTES || self.members.entries.len()
            > MAX_MEMBERS {
            return Err(SquadError::CapacityExceeded);
        }
        let pairs = self.members.to_pairs();
        let blob = match borsh_encode_pairs(&pairs) {
            Some(blob) => blob,
            None => {
                return Err(SquadError::CapacityExceeded);
            },
        };
        proof {
            lemma_auto_spec_u32_to_from_le_bytes();
            lemma_auto_spec_u64_to_from_le_bytes();
            lemma_concat_len(joined(self.roster()), 64);
        }
        let prev = dst.as_slice();
        let mut out: Vec<u8> = Vec::new();
        out.push(flag_to_byte(self.is_initialized));
        out.push(flag_to_byte(self.open));
        out.push(flag_to_byte(self.emergency_lock));
        out.push(self.allocation_type);
        out.push(self.vote_support);
        out.push(self.vote_quorum);
        out.push(self.core_threshold);
        assert(out@ =~= seq![
            flag_byte(self.is_initialized),
            flag_byte(self.open),
            flag_byte(self.emergency_lock),
            self.allocation_type,
            self.vote_support,
            self.vote_quorum,
            self.core_threshold,
        ]);
        put_padded(&mut out, name, SQUAD_NAME_BYTES);
        put_padded(&mut out, description, SQUAD_DESCRIPTION_BYTES);
        put_padded(&mut out, token, SQUAD_TOKEN_BYTES);
        put(&mut out, slice_subrange(prev, 73, 78));
        put(&mut out, self.admin.to_vec().as_slice());
        put(&mut out, self.mint_address.to_vec().as_slice());
        put(&mut out, self.sol_account.to_vec().as_slice());
        put(&mut out, slice_subrange(prev, 174, 334));
        put(&mut out, u32_to_le_bytes(self.proposal_nonce).as_slice());
        put(&mut out, i64_to_le_bytes(self.created_on).as_slice());
        put(&mut out, transform_u32_to_array_of_u8(blob.len() as u32).as_slice());
        put_over(&mut out, blob.as_slice(), slice_subrange(prev, 350, 9954));
        put_padded(&mut out, random_id, SQUAD_RANDOM_ID_BYTES);
        put(&mut out, slice_subrange(prev, 9964, 9968));
        put(&mut out, u32_to_le_bytes(self.member_lock_index).as_slice());
        put(&mut out, slice_subrange(prev, 9972, 10228));
        *dst = out;
        Ok(())
    }

    /// Reads a squad from the first bytes of `src`.
    pub fn unpack_from_slice(src: &[u8]) -> (r: Result<Squad, SquadError>)
        ensures
            r is Ok <==> squad_decodable(src@),
            r is Ok ==> r.unwrap()@ == decoded_squad(src@) && r.unwrap().wf(),
            r is Err ==> r == Err::<Squad, SquadError>(SquadError::MalformedRecord),
    {
        if src.len() < SQUAD_TOTAL_BYTES {
            return Err(SquadError::MalformedRecord);
        }
        let is_initialized = match flag_from_byte(src[0]) {
            Some(b) => b,
            None => {
                return Err(SquadError::MalformedRecord);
            },
        };
        let open = match flag_from_byte(src[1]) {
            Some(b) => b,
            None => {
                return Err(SquadError::MalformedRecord);
            },
        };
        let emergency_lock = match flag_from_byte(src[2]) {
            Some(b) => b,
            None => {
                return Err(SquadError::MalformedRecord);
            },
        };
        let mut members = Roster::new();
        let member_length = count_from_le(slice_subrange(src, 346, 350));
        assert(src@.subrange(346, 350).subrange(0, 4) == src@.subrange(346, 350));
        if member_length > SQUAD_MEMBERS_BYTES {
            return Err(SquadError::MalformedRecord);
        }
        if member_length > 0 {
            let blob = slice_subrange(src, 350, 350 + member_length);
            let pairs = match borsh_decode_pairs(blob) {
                Some(pairs) => pairs,
                None => {
                    return Err(SquadError::MalformedRecord);
                },
            };
            proof {
                members.lemma_count();
                lemma_with_pairs_bound(Map::empty(), pairs_view(pairs@));
                assert(pairs_view(pairs@).len() == decode_pairs(blob@).len());
            }
            let absorbed = members.absorb(&pairs);
            assert(absorbed is Ok);
        }
        let squad_name = match read_text(src, 7, 31) {
            Some(s) => s,
            None => {
                return Err(SquadError::MalformedRecord);
            },
        };
        let description = match read_text(src, 31, 67) {
            Some(s) => s,
            None => {
                return Err(SquadError::MalformedRecord);
            },
        };
        let token = match read_text(src, 67, 73) {
            Some(s) => s,
            None => {
                return Err(SquadError::MalformedRecord);
            },
        };
        let random_id = match read_text(src, 9954, 9964) {
            Some(s) => s,
            None => {
                return Err(SquadError::MalformedRecord);
            },
        };
        let squad = Squad {
            is_initialized,
            open,
            emergency_lock,
            allocation_type: src[3],
            vote_support: src[4],
            vote_quorum: src[5],
            core_threshold: src[6],
            squad_name,
            description,
            token,
            future_setting_1: src[73],
            future_setting_2: src[74],
            future_setting_3: src[75],
            future_setting_4: src[76],
            future_setting_5: src[77],
            admin: Address::from_slice(slice_subrange(src, 78, 110)),
            mint_address: Address::from_slice(slice_subrange(src, 110, 142)),
            sol_account: Address::from_slice(slice_subrange(src, 142, 174)),
            future_address1: Address::from_slice(slice_subrange(src, 174, 206)),
            future_address2: Address::from_slice(slice_subrange(src, 206, 238)),
            future_address3: Address::from_slice(slice_subrange(src, 238, 270)),
            future_address4: Address::from_slice(slice_subrange(src, 270, 302)),
            future_address5: Address::from_slice(slice_subrange(src, 302, 334)),
            proposal_nonce: u32_from_le_bytes(slice_subrange(src, 334, 338)),
            created_on: i64_from_le_bytes(slice_subrange(src, 338, 346)),
            members,
            random_id,
            child_index: 0,
            member_lock_index: u32_from_le_bytes(slice_subrange(src, 9968, 9972)),
            reserved: [0u64; 32],
        };
        assert(squad.reserved@ =~= Seq::new(32, |i: int| 0u64));
        Ok(squad)
    }

    /// Reads a squad from bytes of exactly a squad's width.
    pub fn unpack_unchecked(src: &[u8]) -> (r: Result<Squad, SquadError>)
        ensures
            r is Ok <==> src@.len() == SQUAD_TOTAL_BYTES && squad_decodable(src@),
            r is Ok ==> r.unwrap()@ == decoded_squad(src@) && r.unwrap().wf(),
            r is Err ==> r == Err::<Squad, SquadError>(SquadError::MalformedRecord),
    {
        if src.len() != SQUAD_TOTAL_BYTES {
            return Err(SquadError::MalformedRecord);
        }
        Squad::unpack_from_slice(src)
    }
}

} // verus!
