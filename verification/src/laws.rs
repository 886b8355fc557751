//! What holds of the engine whatever the inputs: laws that relate several
//! operations, proved from the operations' own contracts.

use vstd::prelude::*;
use vstd::bytes::*;
use vstd::utf8::*;
use crate::account::{AccountSnapshot, Environment};
use crate::address::Address;
use crate::ballot::{fenced, multisig_vote_applied, team_vote_applied, vote_refusal};
use crate::codec::{
    concat, decode_pairs, encode_keys, encode_pairs, joined, lemma_concat_part,
    lemma_i64_round_trip, text_bytes,
};
use crate::dispatcher::{
    effect_of, effect_refusal, executable_in, execution_refusal, proposal_after, squad_after,
    threshold_met,
};
use crate::error::{ErrorKind, SquadError};
use crate::holds_squad;
use crate::lifecycle::{created, creation_refusal, next_index, ProposalRequestView};
use crate::processor::process_execute_proposal::{
    execute_refusal, execution_actions, live_supply, proposal_of, squad_of,
};
use crate::processor::process_execute_swap::shift;
use crate::roster::{with_pairs, MAX_MEMBERS};
use crate::state::proposal::{
    decoded_proposal, label_bytes, label_fields, packed_proposal, proposal_decodable, slot_bytes,
    vote_fields, voters_blob, ProposalType, ProposalView, MAX_VOTERS, PROPOSAL_TOTAL_BYTES,
};
use crate::state::squad::{
    decoded_squad, packed_squad, recorded_roster_len, squad_decodable, SquadView, MULTISIG,
    SQUAD_TOTAL_BYTES,
};
use crate::state::vote::{
    decoded_receipt, packed_receipt, receipt_decodable, VoteReceiptView, VOTE_RECEIPT_TOTAL_BYTES,
};
use crate::token::mint_valid;
use crate::tally::{
    first_except, leading, lemma_except, lemma_leading, max_of, second_max, share_reached, sum,
    tipped,
};

verus! {

/// Whether option `l` has more than any other option would have with all
/// the weight that is still to vote.
pub open spec fn out_of_reach(v: Seq<u64>, l: int, total: nat) -> bool {
    forall|j: int| 0 <= j < v.len() && j != l ==> v[l] > #[trigger] v[j] + (total - sum(v))
}

/// Tipping: a tally of two options or more is tipped exactly when one
/// option is out of reach of every other, which is when the greatest weight
/// exceeds the second greatest and all that is still to vote.
pub proof fn tipping_is_being_out_of_reach(v: Seq<u64>, total: nat)
    requires
        v.len() >= 2,
    ensures
        tipped(v, total) <==> max_of(v) > second_max(v) + (total - sum(v)),
        tipped(v, total) <==> exists|l: int| 0 <= l < v.len() && out_of_reach(v, l, total),
{
    let lead = leading(v);
    let other = first_except(v, lead);
    lemma_leading(v);
    lemma_except(v, lead);
    if tipped(v, total) {
        assert(out_of_reach(v, lead, total));
    }
    if exists|l: int| 0 <= l < v.len() && out_of_reach(v, l, total) {
        let l = choose|l: int| 0 <= l < v.len() && out_of_reach(v, l, total);
        if l == lead {
            assert(v[l] > v[other] + (total - sum(v)));
        } else {
            assert(v[l] > v[lead] + (total - sum(v)));
            assert(v[l] <= second_max(v));
            assert(v[other] <= max_of(v));
        }
    }
}

/// No double voting: whoever holds a receipt for a proposal is refused a
/// further vote on it, whatever else holds, and the refusal is a conflict of
/// state. A vote that is refused changes neither tally nor receipt, as the
/// contracts of `cast_vote` and `cast_multisig_vote` say.
pub proof fn second_vote_is_refused(
    squad: SquadView,
    p: ProposalView,
    mode: u8,
    voter: Seq<u8>,
    choice: u8,
    weight: u64,
    now: i64,
)
    ensures
        vote_refusal(squad, p, mode, true, voter, choice, weight, now) == Some(
            SquadError::DuplicateVote,
        ),
        SquadError::DuplicateVote.kind_of() == ErrorKind::StateConflict,
{
}

/// Monotonic indexing: a proposal takes the index after the squad's counter
/// and moves the counter on to it, so the proposals created against a squad
/// carry consecutive indices: the second of two creations in a row has the
/// index after the first.
pub proof fn indices_are_consecutive(
    squad: SquadView,
    slot1: ProposalView,
    slot2: ProposalView,
    squad_address: Seq<u8>,
    creator1: Seq<u8>,
    creator2: Seq<u8>,
    request1: ProposalRequestView,
    request2: ProposalRequestView,
    now1: i64,
    now2: i64,
)
    requires
        creation_refusal(squad, slot1, creator1, request1) is None,
        creation_refusal(
            SquadView { proposal_nonce: next_index(squad) as u32, ..squad },
            slot2,
            creator2,
            request2,
        ) is None,
    ensures
        ({
            let first = created(squad, slot1, squad_address, creator1, request1, now1);
            let moved = SquadView { proposal_nonce: next_index(squad) as u32, ..squad };
            let second = created(moved, slot2, squad_address, creator2, request2, now2);
            &&& first.proposal_index == squad.proposal_nonce + 1
            &&& second.proposal_index == first.proposal_index + 1
            &&& squad.proposal_nonce < first.proposal_index < second.proposal_index
        }),
{
}

/// The fence: after membership or equity changed, a proposal created before
/// the change and not decided by then can be neither voted on nor executed.
pub proof fn fence_bars_vote_and_execution(
    squad: SquadView,
    p: ProposalView,
    mode: u8,
    receipt_exists: bool,
    actor: Seq<u8>,
    choice: u8,
    weight: u64,
    supply: u64,
    now: i64,
)
    requires
        squad.member_lock_index >= p.proposal_index,
        !p.execute_ready,
    ensures
        fenced(squad, p),
        vote_refusal(squad, p, mode, receipt_exists, actor, choice, weight, now) is Some,
        execution_refusal(squad, p, mode, actor, supply) is Some,
{
}

/// The fence passes a proposal that was decided before the change: such a
/// proposal is never refused for the fence.
pub proof fn fence_passes_decided(
    squad: SquadView,
    p: ProposalView,
    mode: u8,
    receipt_exists: bool,
    actor: Seq<u8>,
    choice: u8,
    weight: u64,
    supply: u64,
    now: i64,
)
    requires
        p.execute_ready,
    ensures
        !fenced(squad, p),
        vote_refusal(squad, p, mode, receipt_exists, actor, choice, weight, now) != Some(
            SquadError::Fenced,
        ),
        execution_refusal(squad, p, mode, actor, supply) != Some(SquadError::Fenced),
{
}

/// Execution happens once: a proposal that was executed is marked so, and
/// every later execution of it is refused as a conflict of state, whoever
/// asks and whatever the squad has become.
pub proof fn execution_happens_once(
    squad: SquadView,
    p: ProposalView,
    mode: u8,
    executor: Seq<u8>,
    supply: u64,
    member_balance: u64,
    now: i64,
    later_squad: SquadView,
    later_mode: u8,
    later_executor: Seq<u8>,
    later_supply: u64,
)
    requires
        execution_refusal(squad, p, mode, executor, supply) is None,
    ensures
        proposal_after(p, executor, member_balance, now).executed,
        execution_refusal(
            later_squad,
            proposal_after(p, executor, member_balance, now),
            later_mode,
            later_executor,
            later_supply,
        ) == Some(SquadError::AlreadyExecuted),
        SquadError::AlreadyExecuted.kind_of() == ErrorKind::StateConflict,
{
}

/// Execution when it is due: a proposal that is not executed and not fenced,
/// of a type that the squad's mode executes, whose approvals are not
/// outweighed in a team and whose votes carry it, is executed for a member
/// who asks. It is then marked as executed, by that member and at that
/// time. Left out are the proposals whose effect the squad cannot take as it
/// stands, such as the admission of an address that is a member already.
pub proof fn due_execution_succeeds(
    squad: SquadView,
    p: ProposalView,
    mode: u8,
    executor: Seq<u8>,
    supply: u64,
    member_balance: u64,
    now: i64,
)
    requires
        !p.executed,
        !fenced(squad, p),
        squad.allocation_type == mode,
        squad.is_member(executor),
        p.kind() is Some,
        executable_in(mode, p.kind().unwrap()),
        squad.is_multisig() || p.votes[0] >= p.votes[1],
        threshold_met(squad, p, supply),
        effect_refusal(squad, p, p.kind().unwrap()) is None,
    ensures
        execution_refusal(squad, p, mode, executor, supply) is None,
        proposal_after(p, executor, member_balance, now).executed,
        proposal_after(p, executor, member_balance, now).executed_by == executor,
        proposal_after(p, executor, member_balance, now).execution_date == now,
{
}

/// The bar of a decided proposal is frozen: whether its votes carry it
/// depends neither on the squad's live quorum and support nor on its live
/// members nor on the live supply.
pub proof fn decided_bar_is_frozen(
    p: ProposalView,
    squad1: SquadView,
    squad2: SquadView,
    supply1: u64,
    supply2: u64,
)
    requires
        p.execute_ready,
        squad1.is_multisig() == squad2.is_multisig(),
    ensures
        threshold_met(squad1, p, supply1) == threshold_met(squad2, p, supply2),
{
}

/// A decided proposal is executed or refused alike, and with the same
/// effect, whatever the squad's quorum and support and the supply have
/// become since it was decided.
pub proof fn decided_execution_ignores_live_thresholds(
    p: ProposalView,
    squad: SquadView,
    later_quorum: u8,
    later_support: u8,
    mode: u8,
    executor: Seq<u8>,
    supply: u64,
    later_supply: u64,
    member_balance: u64,
)
    requires
        p.execute_ready,
    ensures
        ({
            let later = SquadView { vote_quorum: later_quorum, vote_support: later_support, ..squad };
            &&& execution_refusal(squad, p, mode, executor, supply) == execution_refusal(
                later,
                p,
                mode,
                executor,
                later_supply,
            )
            &&& effect_of(squad, p, member_balance) == effect_of(later, p, member_balance)
        }),
{
}

/// A decided proposal is executed or refused alike, and with the same
/// effect, whatever the roster has become since it was decided, as long as
/// the member who asks is on it as before and the squad can take the effect
/// as before. A change of the roster can bar an effect: a multisig cannot
/// take a quorum above the members it has left.
pub proof fn decided_execution_ignores_live_roster(
    p: ProposalView,
    squad: SquadView,
    later_members: Map<Seq<u8>, Seq<u8>>,
    mode: u8,
    executor: Seq<u8>,
    supply: u64,
    later_supply: u64,
    member_balance: u64,
)
    requires
        p.execute_ready,
        squad.is_member(executor) == later_members.contains_key(executor),
        p.kind() is Some ==> effect_refusal(squad, p, p.kind().unwrap()) == effect_refusal(
            SquadView { members: later_members, ..squad },
            p,
            p.kind().unwrap(),
        ),
    ensures
        ({
            let later = SquadView { members: later_members, ..squad };
            &&& execution_refusal(squad, p, mode, executor, supply) == execution_refusal(
                later,
                p,
                mode,
                executor,
                later_supply,
            )
            &&& effect_of(squad, p, member_balance) == effect_of(later, p, member_balance)
        }),
{
}

/// Whether two lists of accounts are the same execution seen at two times
/// between which only the squad's quorum and support and the supply of its
/// mint have changed: every account is the same but those of the squad and,
/// in a team, of its mint; these two are at the same place under the same
/// owner; the squads they hold differ in quorum and support at most; and
/// the mints they hold are both well-formed or both not.
pub open spec fn same_but_live_thresholds(
    earlier: Seq<AccountSnapshot>,
    later: Seq<AccountSnapshot>,
    mode: u8,
) -> bool {
    &&& earlier.len() == later.len()
    &&& forall|i: int|
        0 <= i < earlier.len() && i != 1 && !(i == 2 && shift(mode) == 1) ==> #[trigger] earlier[i]
            == later[i]
    &&& earlier.len() > 2 ==> {
        &&& earlier[1].key == later[1].key
        &&& earlier[1].owner == later[1].owner
        &&& holds_squad(earlier[1].data@) == holds_squad(later[1].data@)
        &&& squad_of(later) == (SquadView {
            vote_quorum: squad_of(later).vote_quorum,
            vote_support: squad_of(later).vote_support,
            ..squad_of(earlier)
        })
        &&& earlier[2].key == later[2].key
        &&& earlier[2].owner == later[2].owner
        &&& mint_valid(earlier[2].data@) == mint_valid(later[2].data@)
    }
}

/// The execution of a decided proposal is not moved by the live numbers:
/// the processor refuses or executes alike, for the same cause and with the
/// same actions for the ledger, whatever the squad's quorum and support and
/// the supply of its mint have become since the proposal was decided.
#[verifier::rlimit(60)]
pub proof fn decided_execution_is_not_moved_by_live_thresholds(
    earlier: Seq<AccountSnapshot>,
    later: Seq<AccountSnapshot>,
    program_id: Address,
    random_id: Seq<char>,
    env: Environment,
    mode: u8,
)
    requires
        same_but_live_thresholds(earlier, later, mode),
        earlier.len() > 2 + shift(mode) ==> proposal_of(earlier, mode).execute_ready,
    ensures
        execute_refusal(earlier, program_id, random_id, mode) == execute_refusal(
            later,
            program_id,
            random_id,
            mode,
        ),
        execute_refusal(earlier, program_id, random_id, mode) is None ==> execution_actions(
            earlier,
            program_id,
            random_id,
            env,
            mode,
            proposal_of(earlier, mode).kind().unwrap(),
        ) == execution_actions(
            later,
            program_id,
            random_id,
            env,
            mode,
            proposal_of(later, mode).kind().unwrap(),
        ),
{
    let k = shift(mode);
    if earlier.len() >= 9 + k {
        assert(earlier[0] == later[0]);
        assert(earlier[2 + k] == later[2 + k]);
        assert(earlier[3 + k] == later[3 + k]);
        assert(earlier[4 + k] == later[4 + k]);
        assert(earlier[6 + k] == later[6 + k]);
        assert(earlier[7 + k] == later[7 + k]);
        assert(proposal_of(earlier, mode) == proposal_of(later, mode));
        decided_execution_ignores_live_thresholds(
            proposal_of(earlier, mode),
            squad_of(earlier),
            squad_of(later).vote_quorum,
            squad_of(later).vote_support,
            mode,
            earlier[0].key@,
            live_supply(earlier, mode),
            live_supply(later, mode),
            0,
        );
        assert forall|i: int| 3 <= i < earlier.len() implies earlier[i] == later[i] by {}
    }
}

/// A team proposal is marked decided only by a vote that brings quorum and
/// support on the snapshot that the vote leaves: the share of voters among
/// the members recorded, and the share of the leading or approving weight
/// in the supply recorded.
pub proof fn decision_meets_the_bar(
    squad: SquadView,
    p: ProposalView,
    voter: Seq<u8>,
    choice: u8,
    weight: u64,
    supply: u64,
)
    requires
        !p.execute_ready,
        squad.member_count() <= MAX_MEMBERS,
        team_vote_applied(squad, p, voter, choice, weight, supply).execute_ready,
    ensures
        ({
            let after = team_vote_applied(squad, p, voter, choice, weight, supply);
            let carried = if after.proposal_type == 0 {
                max_of(after.votes)
            } else {
                after.votes[0] as nat
            };
            &&& share_reached(
                after.has_voted.len(),
                after.members_at_execute as nat,
                squad.vote_quorum as nat,
            )
            &&& share_reached(carried, after.supply_at_execute as nat, squad.vote_support as nat)
        }),
{
}

/// Removal keeps the quorum within reach: when a member leaves a multisig
/// whose quorum is the whole roster the quorum goes down by one, and in
/// every case the quorum is at most the members that remain.
pub proof fn removal_keeps_quorum_satisfiable(
    squad: SquadView,
    p: ProposalView,
    equity_account: Seq<u8>,
    member_balance: u64,
)
    requires
        squad.members.dom().finite(),
        squad.is_multisig(),
        squad.quorum_satisfiable(),
        p.kind() == Some(ProposalType::RemoveMember),
        squad.is_member(p.execution_destination),
    ensures
        ({
            let after = squad_after(squad, p, equity_account, member_balance);
            &&& after.member_count() == squad.member_count() - 1
            &&& squad.vote_quorum == squad.member_count() ==> after.vote_quorum == squad.vote_quorum - 1
            &&& squad.vote_quorum != squad.member_count() ==> after.vote_quorum == squad.vote_quorum
            &&& after.quorum_satisfiable()
        }),
{
    let after = squad_after(squad, p, equity_account, member_balance);
    assert(after.members.dom() =~= squad.members.dom().remove(p.execution_destination));
    assert(squad.allocation_type == MULTISIG);
}

/// The quorum of a multisig stays within reach: whatever proposal is
/// executed, a quorum that the members could meet before is one that the
/// members can meet after.
pub proof fn execution_keeps_quorum_satisfiable(
    squad: SquadView,
    p: ProposalView,
    executor: Seq<u8>,
    supply: u64,
    equity_account: Seq<u8>,
    member_balance: u64,
)
    requires
        squad.members.dom().finite(),
        squad.quorum_satisfiable(),
        execution_refusal(squad, p, squad.allocation_type, executor, supply) is None,
    ensures
        squad_after(squad, p, equity_account, member_balance).quorum_satisfiable(),
        squad_after(squad, p, equity_account, member_balance).allocation_type
            == squad.allocation_type,
{
    let after = squad_after(squad, p, equity_account, member_balance);
    if squad.is_multisig() {
        match p.kind() {
            Some(ProposalType::AddMember) => {
                assert(after.members.dom() =~= squad.members.dom().insert(p.execution_destination));
            },
            Some(ProposalType::RemoveMember) => {
                assert(after.members.dom() =~= squad.members.dom().remove(p.execution_destination));
            },
            _ => {},
        }
    }
}

/// The percentages of a team stay percentages: whatever proposal is
/// executed, a quorum and a support from 1 to 100 stay within 1 to 100.
pub proof fn execution_keeps_percentages(
    squad: SquadView,
    p: ProposalView,
    executor: Seq<u8>,
    supply: u64,
    equity_account: Seq<u8>,
    member_balance: u64,
)
    requires
        squad.percentages_valid(),
        execution_refusal(squad, p, squad.allocation_type, executor, supply) is None,
    ensures
        squad_after(squad, p, equity_account, member_balance).percentages_valid(),
{
}

/// A decision stays: a vote on a proposal that is decided leaves it decided
/// and leaves the snapshot that it was decided under as it is, whatever the
/// squad and the supply have become.
pub proof fn decision_is_frozen(
    squad: SquadView,
    p: ProposalView,
    voter: Seq<u8>,
    choice: u8,
    weight: u64,
    supply: u64,
)
    requires
        p.execute_ready,
    ensures
        ({
            let team = team_vote_applied(squad, p, voter, choice, weight, supply);
            let multisig = multisig_vote_applied(squad, p, voter, choice);
            &&& team.execute_ready && multisig.execute_ready
            &&& team.supply_at_execute == p.supply_at_execute
            &&& team.members_at_execute == p.members_at_execute
            &&& team.threshold_at_execute == p.threshold_at_execute
            &&& multisig.supply_at_execute == p.supply_at_execute
            &&& multisig.members_at_execute == p.members_at_execute
            &&& multisig.threshold_at_execute == p.threshold_at_execute
        }),
{
}

/// A receipt that was persisted is read back as it was, whatever its
/// account held before.
pub proof fn receipt_is_read_back(v: VoteReceiptView, prev: Seq<u8>)
    requires
        v.proposal_address.len() == 32,
        v.voter.len() == 32,
        v.reserved == Seq::new(4, |i: int| 0u64),
        prev.len() == VOTE_RECEIPT_TOTAL_BYTES,
    ensures
        packed_receipt(v, prev).len() == VOTE_RECEIPT_TOTAL_BYTES,
        receipt_decodable(packed_receipt(v, prev)),
        decoded_receipt(packed_receipt(v, prev)) == v,
{
    let bytes = packed_receipt(v, prev);
    lemma_auto_spec_u64_to_from_le_bytes();
    lemma_i64_round_trip(v.cast_timestamp);
    assert(bytes.subrange(1, 33) =~= v.proposal_address);
    assert(bytes.subrange(34, 66) =~= v.voter);
    assert(bytes.subrange(66, 74) =~= crate::codec::i64_le_bytes(v.cast_timestamp));
    assert(bytes.subrange(74, 82) =~= spec_u64_to_le_bytes(v.weight));
}

/// Whether a proposal has the form in which it is read: addresses of 32
/// bytes, texts that fill their fields, a tally and labels of five, and the
/// number of voters recorded.
pub open spec fn proposal_as_read(p: ProposalView) -> bool {
    &&& p.execution_source.len() == 32
    &&& p.execution_destination.len() == 32
    &&& p.creator.len() == 32
    &&& p.squad_address.len() == 32
    &&& p.executed_by.len() == 32
    &&& text_bytes(p.title).len() == 36
    &&& text_bytes(p.description).len() == 496
    &&& text_bytes(p.link).len() == 48
    &&& p.votes.len() == 5
    &&& p.has_voted.len() <= MAX_VOTERS
    &&& p.has_voted_num == p.has_voted.len()
    &&& forall|i: int| 0 <= i < p.has_voted.len() ==> (#[trigger] p.has_voted[i]).len() == 32
    &&& p.votes_labels.len() == 5
    &&& forall|i: int| 0 <= i < 5 ==> text_bytes(#[trigger] p.votes_labels[i]).len() == 44
    &&& p.reserved == Seq::new(16, |i: int| 0u64)
}

/// A proposal that was persisted is read back as it was, whatever its
/// account held before.
#[verifier::rlimit(60)]
pub proof fn proposal_is_read_back(p: ProposalView, prev: Seq<u8>)
    requires
        proposal_as_read(p),
        prev.len() == PROPOSAL_TOTAL_BYTES,
    ensures
        packed_proposal(p, prev).len() == PROPOSAL_TOTAL_BYTES,
        proposal_decodable(packed_proposal(p, prev)),
        decoded_proposal(packed_proposal(p, prev)) == p,
{
    let bytes = packed_proposal(p, prev);
    let d = decoded_proposal(bytes);
    lemma_auto_spec_u64_to_from_le_bytes();
    lemma_auto_spec_u32_to_from_le_bytes();
    lemma_i64_round_trip(p.start_timestamp);
    lemma_i64_round_trip(p.close_timestamp);
    lemma_i64_round_trip(p.created_timestamp);
    lemma_i64_round_trip(p.execution_date);
    let blob = encode_keys(p.has_voted);
    let n = p.has_voted.len() as int;
    assert(concat(p.has_voted).len() == 32 * n && blob.len() == 4 + 32 * n) by {
        crate::codec::lemma_concat_len(p.has_voted, 32);
    }
    let slots = vote_fields(p.votes);
    let labels = label_fields(p.votes_labels);
    assert forall|i: int| 0 <= i < 5 implies (#[trigger] labels[i]) == text_bytes(
        p.votes_labels[i],
    ) by {
        assert(labels[i] =~= text_bytes(p.votes_labels[i]));
    }
    crate::codec::lemma_concat_len(slots, 8);
    crate::codec::lemma_concat_len(labels, 44);
    // the head of the record, up to the end of the list of voters
    let head = seq![crate::codec::flag_byte(p.is_initialized), p.proposal_type]
        + spec_u64_to_le_bytes(p.execution_amount) + spec_u64_to_le_bytes(p.execution_amount_out)
        + p.execution_source + p.execution_destination + p.creator + p.squad_address
        + crate::codec::padded(text_bytes(p.title), 36)
        + crate::codec::padded(text_bytes(p.description), 496)
        + crate::codec::padded(text_bytes(p.link), 48) + seq![
        p.votes_num,
        p.has_voted_num,
    ] + crate::codec::overlay(prev.subrange(728, 5532), blob);
    assert(head.len() == 5532);
    let body = head + concat(slots) + concat(labels);
    assert(body.len() == 5792);
    assert(bytes.len() == PROPOSAL_TOTAL_BYTES);
    assert(bytes.subrange(0, 5792) =~= body);
    assert(bytes.subrange(0, 5532) =~= head);
    assert(bytes.subrange(2, 10) =~= spec_u64_to_le_bytes(p.execution_amount));
    assert(bytes.subrange(10, 18) =~= spec_u64_to_le_bytes(p.execution_amount_out));
    assert(bytes.subrange(18, 50) =~= p.execution_source);
    assert(bytes.subrange(50, 82) =~= p.execution_destination);
    assert(bytes.subrange(82, 114) =~= p.creator);
    assert(bytes.subrange(114, 146) =~= p.squad_address);
    assert(bytes.subrange(146, 182) =~= text_bytes(p.title));
    assert(bytes.subrange(182, 678) =~= text_bytes(p.description));
    assert(bytes.subrange(678, 726) =~= text_bytes(p.link));
    encode_utf8_valid_utf8(p.title);
    encode_utf8_decode_utf8(p.title);
    encode_utf8_valid_utf8(p.description);
    encode_utf8_decode_utf8(p.description);
    encode_utf8_valid_utf8(p.link);
    encode_utf8_decode_utf8(p.link);
    assert(bytes[726] == p.votes_num);
    assert(bytes[727] == p.has_voted_num);
    assert(voters_blob(bytes) =~= blob);
    assert(blob.subrange(0, 4) =~= spec_u32_to_le_bytes(p.has_voted.len() as u32));
    assert(d.has_voted =~= p.has_voted) by {
        if n > 0 {
            assert forall|i: int| 0 <= i < n implies blob.subrange(4 + 32 * i, 36 + 32 * i)
                == p.has_voted[i] by {
                lemma_concat_part(p.has_voted, 32, i);
                assert(blob.subrange(4 + 32 * i, 36 + 32 * i) =~= concat(p.has_voted).subrange(
                    32 * i,
                    32 * i + 32,
                ));
            }
        }
    }
    assert forall|i: int| 0 <= i < 5 implies #[trigger] slot_bytes(bytes, i) == slots[i] by {
        lemma_concat_part(slots, 8, i);
        assert(slot_bytes(bytes, i) =~= concat(slots).subrange(8 * i, 8 * i + 8));
    }
    assert(d.votes =~= p.votes);
    assert forall|i: int| 0 <= i < 5 implies #[trigger] label_bytes(bytes, i) == text_bytes(
        p.votes_labels[i],
    ) by {
        lemma_concat_part(labels, 44, i);
        assert(label_bytes(bytes, i) =~= concat(labels).subrange(44 * i, 44 * i + 44));
    }
    assert forall|i: int| 0 <= i < 5 implies valid_utf8(#[trigger] label_bytes(bytes, i)) by {
        encode_utf8_valid_utf8(p.votes_labels[i]);
    }
    assert(d.votes_labels =~= p.votes_labels) by {
        assert forall|i: int| 0 <= i < 5 implies d.votes_labels[i] == p.votes_labels[i] by {
            encode_utf8_decode_utf8(p.votes_labels[i]);
        }
    }
    assert(bytes.subrange(5792, 5800) =~= crate::codec::i64_le_bytes(p.start_timestamp));
    assert(bytes.subrange(5800, 5808) =~= crate::codec::i64_le_bytes(p.close_timestamp));
    assert(bytes.subrange(5808, 5816) =~= crate::codec::i64_le_bytes(p.created_timestamp));
    assert(bytes.subrange(5816, 5824) =~= spec_u64_to_le_bytes(p.supply_at_execute));
    assert(bytes.subrange(5828, 5836) =~= crate::codec::i64_le_bytes(p.execution_date));
    assert(bytes.subrange(5838, 5870) =~= p.executed_by);
    assert(bytes.subrange(5870, 5874) =~= spec_u32_to_le_bytes(p.proposal_index));
    assert(d.reserved =~= p.reserved);
}

/// Whether a squad has the form in which it is read from the bytes `prev`:
/// addresses of 32 bytes, texts that fill their fields, `roster` its members
/// in the order of addresses, and what is never written as `prev` has it.
pub open spec fn squad_as_read(s: SquadView, roster: Seq<(Seq<u8>, Seq<u8>)>, prev: Seq<u8>) -> bool {
    &&& s.admin.len() == 32
    &&& s.sol_account.len() == 32
    &&& s.mint_address.len() == 32
    &&& text_bytes(s.squad_name).len() == 24
    &&& text_bytes(s.description).len() == 36
    &&& text_bytes(s.token).len() == 6
    &&& text_bytes(s.random_id).len() == 10
    &&& roster.len() <= MAX_MEMBERS
    &&& forall|i: int|
        0 <= i < roster.len() ==> (#[trigger] roster[i]).0.len() == 32 && roster[i].1.len() == 32
    &&& s.members == with_pairs(Map::empty(), roster)
    &&& s.future_setting_1 == prev[73]
    &&& s.future_setting_2 == prev[74]
    &&& s.future_setting_3 == prev[75]
    &&& s.future_setting_4 == prev[76]
    &&& s.future_setting_5 == prev[77]
    &&& s.future_address1 == prev.subrange(174, 206)
    &&& s.future_address2 == prev.subrange(206, 238)
    &&& s.future_address3 == prev.subrange(238, 270)
    &&& s.future_address4 == prev.subrange(270, 302)
    &&& s.future_address5 == prev.subrange(302, 334)
    &&& s.child_index == 0
    &&& s.reserved == Seq::new(32, |i: int| 0u64)
}

/// A squad that was read from an account, changed, and persisted over the
/// same account is read back as it was persisted.
#[verifier::rlimit(60)]
pub proof fn squad_is_read_back(s: SquadView, roster: Seq<(Seq<u8>, Seq<u8>)>, prev: Seq<u8>)
    requires
        squad_as_read(s, roster, prev),
        prev.len() == SQUAD_TOTAL_BYTES,
    ensures
        packed_squad(s, roster, prev).len() == SQUAD_TOTAL_BYTES,
        squad_decodable(packed_squad(s, roster, prev)),
        decoded_squad(packed_squad(s, roster, prev)) == s,
{
    let bytes = packed_squad(s, roster, prev);
    let d = decoded_squad(bytes);
    lemma_auto_spec_u32_to_from_le_bytes();
    lemma_i64_round_trip(s.created_on);
    let blob = encode_pairs(roster);
    let n = roster.len() as int;
    let parts = joined(roster);
    crate::codec::lemma_concat_len(parts, 64);
    assert(blob.len() == 4 + 64 * n);
    assert(bytes.len() == SQUAD_TOTAL_BYTES);
    assert(bytes.subrange(7, 31) =~= text_bytes(s.squad_name));
    assert(bytes.subrange(31, 67) =~= text_bytes(s.description));
    assert(bytes.subrange(67, 73) =~= text_bytes(s.token));
    assert(bytes.subrange(9954, 9964) =~= text_bytes(s.random_id));
    encode_utf8_valid_utf8(s.squad_name);
    encode_utf8_decode_utf8(s.squad_name);
    encode_utf8_valid_utf8(s.description);
    encode_utf8_decode_utf8(s.description);
    encode_utf8_valid_utf8(s.token);
    encode_utf8_decode_utf8(s.token);
    encode_utf8_valid_utf8(s.random_id);
    encode_utf8_decode_utf8(s.random_id);
    assert(bytes.subrange(78, 110) =~= s.admin);
    assert(bytes.subrange(110, 142) =~= s.mint_address);
    assert(bytes.subrange(142, 174) =~= s.sol_account);
    assert(bytes.subrange(174, 206) =~= s.future_address1);
    assert(bytes.subrange(206, 238) =~= s.future_address2);
    assert(bytes.subrange(238, 270) =~= s.future_address3);
    assert(bytes.subrange(270, 302) =~= s.future_address4);
    assert(bytes.subrange(302, 334) =~= s.future_address5);
    assert(bytes.subrange(334, 338) =~= spec_u32_to_le_bytes(s.proposal_nonce));
    assert(bytes.subrange(338, 346) =~= crate::codec::i64_le_bytes(s.created_on));
    assert(bytes.subrange(346, 350) =~= spec_u32_to_le_bytes(blob.len() as u32));
    assert(recorded_roster_len(bytes) == blob.len());
    assert(bytes.subrange(350, 350 + blob.len() as int) =~= blob);
    assert(blob.subrange(0, 4) =~= spec_u32_to_le_bytes(roster.len() as u32));
    assert(decode_pairs(blob) =~= roster) by {
        assert forall|i: int| 0 <= i < n implies #[trigger] decode_pairs(blob)[i] == roster[i] by {
            lemma_concat_part(parts, 64, i);
            assert(blob.subrange(4 + 64 * i, 68 + 64 * i) =~= concat(parts).subrange(
                64 * i,
                64 * i + 64,
            ));
            let pair = blob.subrange(4 + 64 * i, 68 + 64 * i);
            assert(pair == roster[i].0 + roster[i].1);
            assert(blob.subrange(4 + 64 * i, 36 + 64 * i) =~= pair.subrange(0, 32));
            assert(blob.subrange(36 + 64 * i, 68 + 64 * i) =~= pair.subrange(32, 64));
            assert(pair.subrange(0, 32) =~= roster[i].0);
            assert(pair.subrange(32, 64) =~= roster[i].1);
        }
    }
    assert(bytes.subrange(9968, 9972) =~= spec_u32_to_le_bytes(s.member_lock_index));
    assert(d.reserved =~= s.reserved);
}

} // verus!
