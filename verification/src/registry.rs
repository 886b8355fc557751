//! Creating a squad and admitting the first members of a draft.

use vstd::prelude::*;
use crate::address::Address;
use crate::codec::{pairs_view, text_bytes, text_fits};
use crate::error::SquadError;
use crate::roster::{with_pairs, MAX_MEMBERS};
use crate::state::squad::{
    Squad, SquadView, MULTISIG, SQUAD_DESCRIPTION_BYTES, SQUAD_NAME_BYTES, SQUAD_RANDOM_ID_BYTES,
    SQUAD_TOKEN_BYTES, TEAM_COORDINATION,
};

verus! {

/// Why a team-coordination squad is not created, if it is not. `slot` is
/// the record that the squad is to take.
pub open spec fn team_creation_refusal(
    slot: SquadView,
    allocation_type: u8,
    vote_support: u8,
    vote_quorum: u8,
    squad_name: Seq<char>,
    description: Seq<char>,
    token: Seq<char>,
    random_id: Seq<char>,
) -> Option<SquadError> {
    if allocation_type != TEAM_COORDINATION {
        Some(SquadError::WrongMode)
    } else if slot.is_initialized {
        Some(SquadError::SquadAlreadyExists)
    } else if !(1 <= vote_quorum <= 100) {
        Some(SquadError::OutOfRange)
    } else if !(1 <= vote_support <= 100) {
        Some(SquadError::OutOfRange)
    } else if text_bytes(squad_name).len() > SQUAD_NAME_BYTES || text_bytes(description).len()
        > SQUAD_DESCRIPTION_BYTES || text_bytes(token).len() > SQUAD_TOKEN_BYTES || text_bytes(
        random_id,
    ).len() > SQUAD_RANDOM_ID_BYTES {
        Some(SquadError::CapacityExceeded)
    } else {
        None
    }
}

/// The team-coordination squad that is created in the record `slot`.
pub open spec fn team_squad(
    slot: SquadView,
    vote_support: u8,
    vote_quorum: u8,
    core_threshold: u8,
    squad_name: Seq<char>,
    description: Seq<char>,
    token: Seq<char>,
    initializer: Seq<u8>,
    mint_owner: Seq<u8>,
    sol_account: Seq<u8>,
    now: i64,
    random_id: Seq<char>,
) -> SquadView {
    SquadView {
        is_initialized: true,
        open: true,
        emergency_lock: false,
        allocation_type: TEAM_COORDINATION,
        vote_support,
        vote_quorum,
        core_threshold,
        squad_name,
        description,
        token,
        admin: initializer,
        mint_address: mint_owner,
        sol_account,
        created_on: now,
        random_id,
        ..slot
    }
}

/// Creates a team-coordination squad in the record `squad`, as a draft with
/// no members. Quorum and support are percentages from 1 to 100.
pub fn create_squad(
    squad: &mut Squad,
    allocation_type: u8,
    vote_support: u8,
    vote_quorum: u8,
    core_threshold: u8,
    squad_name: String,
    description: String,
    token: String,
    initializer: &Address,
    mint_owner: &Address,
    sol_account: &Address,
    now: i64,
    random_id: String,
) -> (r: Result<(), SquadError>)
    requires
        old(squad).wf(),
    ensures
        final(squad).wf(),
        match team_creation_refusal(
            old(squad)@,
            allocation_type,
            vote_support,
            vote_quorum,
            squad_name@,
            description@,
            token@,
            random_id@,
        ) {
            Some(e) => r == Err::<(), SquadError>(e) && *final(squad) == *old(squad),
            None => {
                &&& r is Ok
                &&& final(squad)@.percentages_valid()
                &&& final(squad)@ == team_squad(
                    old(squad)@,
                    vote_support,
                    vote_quorum,
                    core_threshold,
                    squad_name@,
                    description@,
                    token@,
                    initializer@,
                    mint_owner@,
                    sol_account@,
                    now,
                    random_id@,
                )
            },
        },
{
    if allocation_type != TEAM_COORDINATION {
        return Err(SquadError::WrongMode);
    }
    if squad.is_initialized {
        return Err(SquadError::SquadAlreadyExists);
    }
    if vote_quorum < 1 || vote_quorum > 100 {
        return Err(SquadError::OutOfRange);
    }
    if vote_support < 1 || vote_support > 100 {
        return Err(SquadError::OutOfRange);
    }
    if !text_fits(&squad_name, SQUAD_NAME_BYTES) || !text_fits(&description, SQUAD_DESCRIPTION_BYTES)
        || !text_fits(&token, SQUAD_TOKEN_BYTES) || !text_fits(&random_id, SQUAD_RANDOM_ID_BYTES) {
        return Err(SquadError::CapacityExceeded);
    }
    squad.setup_tc(
        TEAM_COORDINATION,
        vote_support,
        vote_quorum,
        core_threshold,
        squad_name,
        description,
        token,
        initializer,
        mint_owner,
        sol_account,
        now,
        random_id,
    );
    Ok(())
}

/// Each address paired with itself: in a multisig a member's own address
/// stands where a team member's equity account stands.
pub open spec fn paired_with_self(keys: Seq<Seq<u8>>) -> Seq<(Seq<u8>, Seq<u8>)> {
    Seq::new(keys.len(), |i: int| (keys[i], keys[i]))
}

/// The views of a list of addresses.
pub open spec fn addresses_view(keys: Seq<Address>) -> Seq<Seq<u8>> {
    Seq::new(keys.len(), |i: int| keys[i]@)
}

/// Why a multisig is not created, if it is not. The quorum is a count of
/// members: at least one and at most as many as are named, each counted once.
pub open spec fn multisig_creation_refusal(
    slot: SquadView,
    vote_quorum: u8,
    squad_name: Seq<char>,
    description: Seq<char>,
    random_id: Seq<char>,
    members: Seq<Seq<u8>>,
) -> Option<SquadError> {
    let roster = with_pairs(slot.members, paired_with_self(members));
    if slot.is_initialized {
        Some(SquadError::SquadAlreadyExists)
    } else if vote_quorum < 1 || vote_quorum > members.len() {
        Some(SquadError::OutOfRange)
    } else if text_bytes(squad_name).len() > SQUAD_NAME_BYTES || text_bytes(description).len()
        > SQUAD_DESCRIPTION_BYTES || text_bytes(random_id).len() > SQUAD_RANDOM_ID_BYTES {
        Some(SquadError::CapacityExceeded)
    } else if roster.len() > MAX_MEMBERS {
        Some(SquadError::CapacityExceeded)
    } else if vote_quorum > roster.len() {
        Some(SquadError::OutOfRange)
    } else {
        None
    }
}

/// The multisig that is created in the record `slot`.
pub open spec fn multisig_squad(
    slot: SquadView,
    vote_quorum: u8,
    squad_name: Seq<char>,
    description: Seq<char>,
    initializer: Seq<u8>,
    sol_account: Seq<u8>,
    now: i64,
    random_id: Seq<char>,
    members: Seq<Seq<u8>>,
) -> SquadView {
    SquadView {
        is_initialized: true,
        open: false,
        emergency_lock: false,
        allocation_type: MULTISIG,
        vote_support: 0,
        vote_quorum,
        squad_name,
        description,
        admin: initializer,
        sol_account,
        created_on: now,
        random_id,
        members: with_pairs(slot.members, paired_with_self(members)),
        ..slot
    }
}

/// Creates a multisig in the record `squad` with the members named. It is
/// never a draft.
pub fn create_multisig(
    squad: &mut Squad,
    vote_quorum: u8,
    squad_name: String,
    description: String,
    initializer: &Address,
    sol_account: &Address,
    now: i64,
    random_id: String,
    members: &Vec<Address>,
) -> (r: Result<(), SquadError>)
    requires
        old(squad).wf(),
    ensures
        final(squad).wf(),
        match multisig_creation_refusal(
            old(squad)@,
            vote_quorum,
            squad_name@,
            description@,
            random_id@,
            addresses_view(members@),
        ) {
            Some(e) => r == Err::<(), SquadError>(e) && *final(squad) == *old(squad),
            None => {
                &&& r is Ok
                &&& final(squad)@.quorum_satisfiable()
                &&& final(squad)@ == multisig_squad(
                    old(squad)@,
                    vote_quorum,
                    squad_name@,
                    description@,
                    initializer@,
                    sol_account@,
                    now,
                    random_id@,
                    addresses_view(members@),
                )
            },
        },
{
    if squad.is_initialized {
        return Err(SquadError::SquadAlreadyExists);
    }
    if vote_quorum < 1 || vote_quorum as usize > members.len() {
        return Err(SquadError::OutOfRange);
    }
    if !text_fits(&squad_name, SQUAD_NAME_BYTES) || !text_fits(&description, SQUAD_DESCRIPTION_BYTES)
        || !text_fits(&random_id, SQUAD_RANDOM_ID_BYTES) {
        return Err(SquadError::CapacityExceeded);
    }
    let mut pairs: Vec<(Address, Address)> = Vec::new();
    let mut i: usize = 0;
    while i < members.len()
        invariant
            i <= members@.len(),
            pairs@.len() == i,
            forall|j: int| 0 <= j < i ==> pairs@[j] == (members@[j], members@[j]),
        decreases members@.len() - i,
    {
        pairs.push((members[i], members[i]));
        i += 1;
    }
    assert(pairs_view(pairs@) =~= paired_with_self(addresses_view(members@)));
    let mut roster = squad.members.duplicate();
    match roster.absorb(&pairs) {
        Ok(()) => {},
        Err(e) => {
            return Err(e);
        },
    }
    if vote_quorum as usize > roster.len() {
        return Err(SquadError::OutOfRange);
    }
    squad.members = roster;
    squad.setup_ms(vote_quorum, squad_name, description, initializer, sol_account, now, random_id);
    Ok(())
}

/// Why members are not admitted to a draft, if they are not.
pub open spec fn admission_refusal(
    squad: SquadView,
    admin: Seq<u8>,
    members: Seq<(Seq<u8>, Seq<u8>)>,
) -> Option<SquadError> {
    if !squad.open {
        Some(SquadError::NotDraft)
    } else if admin != squad.admin {
        Some(SquadError::NotAdmin)
    } else if with_pairs(squad.members, members).len() > MAX_MEMBERS {
        Some(SquadError::CapacityExceeded)
    } else {
        None
    }
}

/// Admits the first members of a draft, each with an equity account, and
/// closes the draft for good. Only the squad's admin may do so, and once.
pub fn admit_members(squad: &mut Squad, admin: &Address, members: &Vec<(Address, Address)>) -> (r:
    Result<(), SquadError>)
    requires
        old(squad).wf(),
    ensures
        final(squad).wf(),
        match admission_refusal(old(squad)@, admin@, pairs_view(members@)) {
            Some(e) => r == Err::<(), SquadError>(e) && *final(squad) == *old(squad),
            None => {
                &&& r is Ok
                &&& final(squad)@ == (SquadView {
                    open: false,
                    members: with_pairs(old(squad)@.members, pairs_view(members@)),
                    ..old(squad)@
                })
            },
        },
{
    if !squad.open {
        return Err(SquadError::NotDraft);
    }
    if !admin.same_as(&squad.admin) {
        return Err(SquadError::NotAdmin);
    }
    match squad.members.absorb(members) {
        Ok(()) => {},
        Err(e) => {
            return Err(e);
        },
    }
    squad.open = false;
    Ok(())
}

} // verus!
