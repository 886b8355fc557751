//! The membership roster of a squad: a bounded map from a member's address to
//! the account that holds the member's equity, kept in the order of addresses.

use vstd::prelude::*;
use crate::address::Address;
use crate::codec::pairs_view;
use crate::error::SquadError;

verus! {

/// The most members a roster holds.
pub const MAX_MEMBERS: usize = 150;

/// What the roster records of a member.
#[derive(Clone, Copy, Debug, PartialEq, Eq)]
pub struct Member {
    pub equity_token_account: Address,
}

/// A member's address with what is recorded of the member.
#[derive(Clone, Copy, Debug, PartialEq, Eq)]
pub struct MemberEntry {
    pub key: Address,
    pub member: Member,
}

/// The roster. Its entries stand in the order of their keys, each key once.
#[derive(Clone, Debug, PartialEq, Eq)]
pub struct Roster {
    pub entries: Vec<MemberEntry>,
}

/// Whether the keys of the entries strictly ascend.
pub open spec fn ascending(entries: Seq<MemberEntry>) -> bool {
    forall|i: int, j: int|
        0 <= i < j < entries.len() ==> (#[trigger] entries[i]).key.rank() < (#[trigger] entries[j]).key.rank()
}

/// Whether some entry has this key.
pub open spec fn has_key(entries: Seq<MemberEntry>, key: Seq<u8>) -> bool {
    exists|i: int| 0 <= i < entries.len() && (#[trigger] entries[i]).key@ == key
}

/// The map that the entries stand for: each key to its equity account.
pub open spec fn entries_map(entries: Seq<MemberEntry>) -> Map<Seq<u8>, Seq<u8>> {
    Map::new(
        |k: Seq<u8>| has_key(entries, k),
        |k: Seq<u8>|
            {
                let i = choose|i: int| 0 <= i < entries.len() && (#[trigger] entries[i]).key@ == k;
                entries[i].member.equity_token_account@
            },
    )
}

/// In ascending entries a key stands at one index only, and the map gives
/// each entry's key its own equity account.
pub proof fn lemma_entry_value(entries: Seq<MemberEntry>, i: int)
    requires
        ascending(entries),
        0 <= i < entries.len(),
    ensures
        has_key(entries, entries[i].key@),
        entries_map(entries)[entries[i].key@] == entries[i].member.equity_token_account@,
{
    let k = entries[i].key@;
    let j = choose|j: int| 0 <= j < entries.len() && (#[trigger] entries[j]).key@ == k;
    assert(entries[j].key.rank() == entries[i].key.rank());
    if j < i {
        assert(entries[j].key.rank() < entries[i].key.rank());
    }
    if i < j {
        assert(entries[i].key.rank() < entries[j].key.rank());
    }
}

/// The map of ascending entries has as many keys as there are entries.
pub proof fn lemma_map_len(entries: Seq<MemberEntry>)
    requires
        ascending(entries),
    ensures
        entries_map(entries).dom().finite(),
        entries_map(entries).dom().len() == entries.len(),
    decreases entries.len(),
{
    if entries.len() == 0 {
        assert(entries_map(entries).dom() =~= Set::<Seq<u8>>::empty());
    } else {
        let init = entries.drop_last();
        let last = entries.last();
        assert forall|i: int, j: int| 0 <= i < j < init.len() implies (#[trigger] init[i]).key.rank() < (
        #[trigger] init[j]).key.rank() by {
            assert(entries[i].key.rank() < entries[j].key.rank());
        }
        lemma_map_len(init);
        if has_key(init, last.key@) {
            let j = choose|j: int| 0 <= j < init.len() && (#[trigger] init[j]).key@ == last.key@;
            assert(entries[j].key.rank() < entries[entries.len() - 1].key.rank());
        }
        assert forall|k: Seq<u8>| has_key(entries, k) <==> (k == last.key@ || has_key(init, k)) by {
            if has_key(entries, k) {
                let j = choose|j: int| 0 <= j < entries.len() && (#[trigger] entries[j]).key@ == k;
                if j < init.len() {
                    assert(init[j].key@ == k);
                }
            }
            if has_key(init, k) {
                let j = choose|j: int| 0 <= j < init.len() && (#[trigger] init[j]).key@ == k;
                assert(entries[j].key@ == k);
            }
            if k == last.key@ {
                assert(entries[entries.len() - 1].key@ == k);
            }
        }
        assert(entries_map(entries).dom() =~= entries_map(init).dom().insert(last.key@));
    }
}

/// A map after each pair, in order, was recorded in it.
pub open spec fn with_pairs(m: Map<Seq<u8>, Seq<u8>>, pairs: Seq<(Seq<u8>, Seq<u8>)>) -> Map<
    Seq<u8>,
    Seq<u8>,
>
    decreases pairs.len(),
{
    if pairs.len() == 0 {
        m
    } else {
        with_pairs(m, pairs.drop_last()).insert(pairs.last().0, pairs.last().1)
    }
}

/// Recording pairs in a finite map leaves it finite and never smaller, and
/// recording more of them never gives fewer keys.
pub proof fn lemma_with_pairs_grows(m: Map<Seq<u8>, Seq<u8>>, pairs: Seq<(Seq<u8>, Seq<u8>)>, i: int)
    requires
        m.dom().finite(),
        0 <= i <= pairs.len(),
    ensures
        with_pairs(m, pairs).dom().finite(),
        with_pairs(m, pairs.take(i)).dom().finite(),
        with_pairs(m, pairs.take(i)).len() <= with_pairs(m, pairs).len(),
    decreases pairs.len(),
{
    if pairs.len() == 0 {
        assert(pairs.take(i) =~= pairs);
    } else if i == pairs.len() {
        assert(pairs.take(i) =~= pairs);
        lemma_with_pairs_grows(m, pairs.drop_last(), 0);
    } else {
        lemma_with_pairs_grows(m, pairs.drop_last(), i);
        assert(pairs.drop_last().take(i) =~= pairs.take(i));
    }
}

/// Recording pairs adds at most as many keys as there are pairs.
pub proof fn lemma_with_pairs_bound(m: Map<Seq<u8>, Seq<u8>>, pairs: Seq<(Seq<u8>, Seq<u8>)>)
    requires
        m.dom().finite(),
    ensures
        with_pairs(m, pairs).dom().finite(),
        with_pairs(m, pairs).len() <= m.len() + pairs.len(),
    decreases pairs.len(),
{
    if pairs.len() > 0 {
        lemma_with_pairs_bound(m, pairs.drop_last());
    }
}

/// The map of ascending entries is the one that comes of recording their
/// pairs, in order, in an empty map.
pub proof fn lemma_map_of_pairs(entries: Seq<MemberEntry>)
    requires
        ascending(entries),
    ensures
        entries_map(entries) == with_pairs(
            Map::empty(),
            Seq::new(
                entries.len(),
                |i: int| (entries[i].key@, entries[i].member.equity_token_account@),
            ),
        ),
    decreases entries.len(),
{
    let pairs = Seq::new(
        entries.len(),
        |i: int| (entries[i].key@, entries[i].member.equity_token_account@),
    );
    if entries.len() == 0 {
        assert(entries_map(entries) =~= Map::<Seq<u8>, Seq<u8>>::empty());
    } else {
        let init = entries.drop_last();
        let last = entries.last();
        let n = entries.len() - 1;
        assert forall|i: int, j: int| 0 <= i < j < init.len() implies (#[trigger] init[i]).key.rank() < (
        #[trigger] init[j]).key.rank() by {
            assert(entries[i].key.rank() < entries[j].key.rank());
        }
        lemma_map_of_pairs(init);
        assert(pairs.drop_last() =~= Seq::new(
            init.len(),
            |i: int| (init[i].key@, init[i].member.equity_token_account@),
        ));
        assert forall|k: Seq<u8>| has_key(entries, k) <==> (k == last.key@ || has_key(init, k)) by {
            if has_key(entries, k) {
                let j = choose|j: int| 0 <= j < entries.len() && (#[trigger] entries[j]).key@ == k;
                if j < init.len() {
                    assert(init[j].key@ == k);
                }
            }
            if has_key(init, k) {
                let j = choose|j: int| 0 <= j < init.len() && (#[trigger] init[j]).key@ == k;
                assert(entries[j].key@ == k);
            }
            if k == last.key@ {
                assert(entries[n].key@ == k);
            }
        }
        assert forall|k: Seq<u8>| has_key(entries, k) implies #[trigger] entries_map(entries)[k]
            == entries_map(init).insert(last.key@, last.member.equity_token_account@)[k] by {
            let j = choose|j: int| 0 <= j < entries.len() && (#[trigger] entries[j]).key@ == k;
            lemma_entry_value(entries, j);
            if j < n {
                lemma_entry_value(init, j);
                if k == last.key@ {
                    assert(entries[j].key.rank() < entries[n].key.rank());
                }
            }
        }
        assert(entries_map(entries) =~= entries_map(init).insert(
            last.key@,
            last.member.equity_token_account@,
        ));
    }
}

impl View for Roster {
    type V = Map<Seq<u8>, Seq<u8>>;

    open spec fn view(&self) -> Map<Seq<u8>, Seq<u8>> {
        entries_map(self.entries@)
    }
}

impl Roster {
    /// The roster's invariant: keys ascend and the bound is kept.
    pub open spec fn wf(&self) -> bool {
        &&& ascending(self.entries@)
        &&& self.entries@.len() <= MAX_MEMBERS
    }

    /// The number of members.
    pub open spec fn count(&self) -> nat {
        self.entries@.len()
    }

    /// Whether the roster keeps its invariant.
    pub fn is_valid(&self) -> (ok: bool)
        ensures
            ok == self.wf(),
    {
        if self.entries.len() > MAX_MEMBERS {
            return false;
        }
        let mut i: usize = 1;
        while i < self.entries.len()
            invariant
                1 <= i,
                forall|a: int, b: int|
                    0 <= a < b < i && b < self.entries@.len() ==> (#[trigger] self.entries@[a]).key.rank() < (
                    #[trigger] self.entries@[b]).key.rank(),
            decreases self.entries@.len() - i,
        {
            if !self.entries[i - 1].key.precedes(&self.entries[i].key) {
                assert(!(self.entries@[i - 1].key.rank() < self.entries@[i as int].key.rank()));
                return false;
            }
            assert forall|a: int, b: int|
                0 <= a < b < i + 1 && b < self.entries@.len() implies (#[trigger] self.entries@[a]).key.rank()
                < (#[trigger] self.entries@[b]).key.rank() by {
                if b == i && a < i - 1 {
                    assert(self.entries@[a].key.rank() < self.entries@[i - 1].key.rank());
                }
            }
            i += 1;
        }
        true
    }

    /// The empty roster.
    pub fn new() -> (r: Roster)
        ensures
            r.wf(),
            r.count() == 0,
            r@ == Map::<Seq<u8>, Seq<u8>>::empty(),
    {
        let r = Roster { entries: Vec::new() };
        assert(r@ =~= Map::<Seq<u8>, Seq<u8>>::empty());
        r
    }

    /// The entries as pairs of a member's address and equity account, in order.
    pub open spec fn pairs(&self) -> Seq<(Address, Address)> {
        Seq::new(
            self.entries@.len(),
            |i: int| (self.entries@[i].key, self.entries@[i].member.equity_token_account),
        )
    }

    /// The entries as pairs of a member's address and equity account, in order.
    pub fn to_pairs(&self) -> (v: Vec<(Address, Address)>)
        ensures
            v@ == self.pairs(),
    {
        let mut v: Vec<(Address, Address)> = Vec::new();
        let mut i: usize = 0;
        while i < self.entries.len()
            invariant
                i <= self.entries@.len(),
                v@ == self.pairs().take(i as int),
            decreases self.entries@.len() - i,
        {
            v.push((self.entries[i].key, self.entries[i].member.equity_token_account));
            assert(self.pairs().take(i as int).push(self.pairs()[i as int]) == self.pairs().take(
                i as int + 1,
            ));
            i += 1;
        }
        assert(self.pairs().take(self.entries@.len() as int) == self.pairs());
        v
    }

    /// A roster with the same entries.
    pub fn duplicate(&self) -> (r: Roster)
        ensures
            r.entries@ == self.entries@,
    {
        let mut entries: Vec<MemberEntry> = Vec::new();
        let mut i: usize = 0;
        while i < self.entries.len()
            invariant
                i <= self.entries@.len(),
                entries@ == self.entries@.take(i as int),
            decreases self.entries@.len() - i,
        {
            entries.push(self.entries[i]);
            assert(self.entries@.take(i as int).push(self.entries@[i as int]) == self.entries@.take(
                i as int + 1,
            ));
            i += 1;
        }
        assert(self.entries@.take(self.entries@.len() as int) == self.entries@);
        Roster { entries }
    }

    /// Records each pair of a member's address and equity account, in order.
    /// Where the roster would outgrow its bound nothing is recorded.
    pub fn absorb(&mut self, pairs: &Vec<(Address, Address)>) -> (r: Result<(), SquadError>)
        requires
            old(self).wf(),
        ensures
            final(self).wf(),
            r is Err <==> with_pairs(old(self)@, pairs_view(pairs@)).len() > MAX_MEMBERS,
            r is Err ==> r == Err::<(), SquadError>(SquadError::CapacityExceeded) && *final(self) == *old(
                self,
            ),
            r is Ok ==> final(self)@ == with_pairs(old(self)@, pairs_view(pairs@)),
    {
        let mut next = self.duplicate();
        let ghost all = pairs_view(pairs@);
        proof {
            self.lemma_count();
        }
        let mut i: usize = 0;
        while i < pairs.len()
            invariant
                i <= pairs@.len(),
                next.wf(),
                self.wf(),
                *self == *old(self),
                all == pairs_view(pairs@),
                self@.dom().finite(),
                next@ == with_pairs(self@, all.take(i as int)),
            decreases pairs@.len() - i,
        {
            let ghost before = next@;
            proof {
                next.lemma_count();
                assert(all.take(i as int + 1).drop_last() =~= all.take(i as int));
                lemma_with_pairs_grows(self@, all, i as int + 1);
            }
            match next.insert(pairs[i].0, Member { equity_token_account: pairs[i].1 }) {
                Ok(()) => {},
                Err(e) => {
                    return Err(e);
                },
            }
            i += 1;
        }
        proof {
            assert(all.take(pairs@.len() as int) =~= all);
            next.lemma_count();
        }
        *self = next;
        Ok(())
    }

    /// The number of members.
    pub fn len(&self) -> (n: usize)
        ensures
            n == self.count(),
            self.wf() ==> n == self@.len(),
    {
        proof {
            if self.wf() {
                lemma_map_len(self.entries@);
            }
        }
        self.entries.len()
    }

    /// A well-formed roster has as many entries as its map has keys.
    pub proof fn lemma_count(&self)
        requires
            self.wf(),
        ensures
            self@.dom().finite(),
            self@.len() == self.count(),
            self@.len() <= MAX_MEMBERS,
    {
        lemma_map_len(self.entries@);
    }

    /// The index of the first entry whose key does not come before `key`.
    fn position(&self, key: &Address) -> (i: usize)
        requires
            ascending(self.entries@),
        ensures
            i <= self.entries@.len(),
            forall|j: int| 0 <= j < i ==> (#[trigger] self.entries@[j]).key.rank() < key.rank(),
            forall|j: int|
                i <= j < self.entries@.len() ==> key.rank() <= (#[trigger] self.entries@[j]).key.rank(),
    {
        let mut i: usize = 0;
        while i < self.entries.len()
            invariant
                i <= self.entries@.len(),
                ascending(self.entries@),
                forall|j: int| 0 <= j < i ==> (#[trigger] self.entries@[j]).key.rank() < key.rank(),
            decreases self.entries@.len() - i,
        {
            if !self.entries[i].key.precedes(key) {
                assert forall|j: int| i <= j < self.entries@.len() implies key.rank() <= (
                #[trigger] self.entries@[j]).key.rank() by {
                    if i < j {
                        assert(self.entries@[i as int].key.rank() < self.entries@[j].key.rank());
                    }
                }
                return i;
            }
            i += 1;
        }
        i
    }

    /// Whether the address is a member.
    pub fn contains(&self, key: &Address) -> (r: bool)
        ensures
            r == self@.contains_key(key@),
    {
        let mut i: usize = 0;
        while i < self.entries.len()
            invariant
                i <= self.entries@.len(),
                forall|j: int| 0 <= j < i ==> (#[trigger] self.entries@[j]).key@ != key@,
            decreases self.entries@.len() - i,
        {
            if self.entries[i].key == *key {
                assert(has_key(self.entries@, key@));
                return true;
            }
            proof {
                if self.entries@[i as int].key@ == key@ {
                    Address::lemma_view_injective(self.entries@[i as int].key, *key);
                }
            }
            i += 1;
        }
        false
    }

    /// What is recorded of a member, if the address is one.
    pub fn get(&self, key: &Address) -> (r: Option<Member>)
        requires
            self.wf(),
        ensures
            r is Some <==> self@.contains_key(key@),
            r is Some ==> r.unwrap().equity_token_account@ == self@[key@],
    {
        let i = self.position(key);
        if i < self.entries.len() && self.entries[i].key == *key {
            proof {
                lemma_entry_value(self.entries@, i as int);
            }
            Some(self.entries[i].member)
        } else {
            proof {
                if has_key(self.entries@, key@) {
                    let j = choose|j: int|
                        0 <= j < self.entries@.len() && (#[trigger] self.entries@[j]).key@ == key@;
                    Address::lemma_view_injective(self.entries@[j].key, *key);
                    if i < self.entries@.len() {
                        Address::lemma_rank_injective(self.entries@[i as int].key, *key);
                    }
                }
            }
            None
        }
    }

    /// Records a member under an address, in place of what was recorded under
    /// it before. A new address is refused by a full roster.
    pub fn insert(&mut self, key: Address, member: Member) -> (r: Result<(), SquadError>)
        requires
            old(self).wf(),
        ensures
            final(self).wf(),
            r is Err <==> !old(self)@.contains_key(key@) && old(self).count() >= MAX_MEMBERS,
            r is Err ==> r == Err::<(), SquadError>(SquadError::CapacityExceeded) && *final(self) == *old(
                self,
            ),
            r is Ok ==> final(self)@ == old(self)@.insert(key@, member.equity_token_account@),
            r is Ok ==> final(self).count() == (if old(self)@.contains_key(key@) {
                old(self).count()
            } else {
                old(self).count() + 1
            }),
    {
        let i = self.position(&key);
        let entry = MemberEntry { key, member };
        let ghost before = self.entries@;
        if i < self.entries.len() && self.entries[i].key == key {
            self.entries[i] = entry;
            proof {
                let after = self.entries@;
                assert(after == before.update(i as int, entry));
                assert(ascending(after)) by {
                    assert forall|a: int, b: int| 0 <= a < b < after.len() implies (#[trigger] after[a]).key.rank()
                        < (#[trigger] after[b]).key.rank() by {
                        assert(before[a].key.rank() < before[b].key.rank());
                    }
                }
                assert(has_key(before, key@));
                assert forall|k: Seq<u8>| has_key(after, k) <==> has_key(before, k) by {
                    if has_key(after, k) {
                        let j = choose|j: int| 0 <= j < after.len() && (#[trigger] after[j]).key@ == k;
                        assert(before[j].key@ == k);
                    }
                    if has_key(before, k) {
                        let j = choose|j: int| 0 <= j < before.len() && (#[trigger] before[j]).key@ == k;
                        assert(after[j].key@ == k);
                    }
                }
                assert forall|k: Seq<u8>| has_key(after, k) implies #[trigger] entries_map(after)[k]
                    == entries_map(before).insert(key@, member.equity_token_account@)[k] by {
                    let j = choose|j: int| 0 <= j < after.len() && (#[trigger] after[j]).key@ == k;
                    lemma_entry_value(after, j);
                    if j != i {
                        lemma_entry_value(before, j);
                        if k == key@ {
                            Address::lemma_view_injective(before[j].key, key);
                        }
                    }
                }
                assert(entries_map(after) =~= entries_map(before).insert(
                    key@,
                    member.equity_token_account@,
                ));
            }
            Ok(())
        } else {
            proof {
                if has_key(before, key@) {
                    let j = choose|j: int| 0 <= j < before.len() && (#[trigger] before[j]).key@ == key@;
                    Address::lemma_view_injective(before[j].key, key);
                    if i < before.len() {
                        Address::lemma_rank_injective(before[i as int].key, key);
                    }
                }
                assert(!has_key(before, key@));
            }
            if self.entries.len() >= MAX_MEMBERS {
                return Err(SquadError::CapacityExceeded);
            }
            proof {
                if i < before.len() {
                    if before[i as int].key.rank() == key.rank() {
                        Address::lemma_rank_injective(before[i as int].key, key);
                    }
                }
            }
            self.entries.insert(i, entry);
            proof {
                let after = self.entries@;
                assert(after == before.insert(i as int, entry));
                assert forall|a: int, b: int| 0 <= a < b < after.len() implies (#[trigger] after[a]).key.rank()
                    < (#[trigger] after[b]).key.rank() by {
                    let pa = if a < i { a } else { a - 1 };
                    let pb = if b < i { b } else { b - 1 };
                    if a != i && b != i {
                        assert(before[pa].key.rank() < before[pb].key.rank());
                    } else if a == i {
                        assert(key.rank() <= before[pb].key.rank());
                        if before[pb].key.rank() == key.rank() {
                            Address::lemma_rank_injective(before[pb].key, key);
                            assert(has_key(before, key@));
                        }
                    } else {
                        assert(before[pa].key.rank() < key.rank());
                    }
                }
                assert forall|k: Seq<u8>| has_key(after, k) <==> (k == key@ || has_key(before, k)) by {
                    if has_key(after, k) {
                        let j = choose|j: int| 0 <= j < after.len() && (#[trigger] after[j]).key@ == k;
                        if j < i {
                            assert(before[j].key@ == k);
                        } else if j > i {
                            assert(before[j - 1].key@ == k);
                        }
                    }
                    if has_key(before, k) {
                        let j = choose|j: int| 0 <= j < before.len() && (#[trigger] before[j]).key@ == k;
                        if j < i {
                            assert(after[j].key@ == k);
                        } else {
                            assert(after[j + 1].key@ == k);
                        }
                    }
                    if k == key@ {
                        assert(after[i as int].key@ == k);
                    }
                }
                assert forall|k: Seq<u8>| has_key(after, k) implies #[trigger] entries_map(after)[k]
                    == entries_map(before).insert(key@, member.equity_token_account@)[k] by {
                    let j = choose|j: int| 0 <= j < after.len() && (#[trigger] after[j]).key@ == k;
                    lemma_entry_value(after, j);
                    if j < i {
                        lemma_entry_value(before, j);
                    } else if j > i {
                        lemma_entry_value(before, j - 1);
                    }
                }
                assert(entries_map(after) =~= entries_map(before).insert(
                    key@,
                    member.equity_token_account@,
                ));
            }
            Ok(())
        }
    }

    /// Strikes an address from the roster; an address that is no member
    /// leaves the roster as it is.
    pub fn remove(&mut self, key: &Address)
        requires
            old(self).wf(),
        ensures
            final(self).wf(),
            final(self)@ == old(self)@.remove(key@),
            final(self).count() == (if old(self)@.contains_key(key@) {
                old(self).count() - 1
            } else {
                old(self).count() as int
            }),
    {
        let i = self.position(key);
        let ghost before = self.entries@;
        if i < self.entries.len() && self.entries[i].key == *key {
            self.entries.remove(i);
            proof {
                let after = self.entries@;
                assert(after == before.remove(i as int));
                assert(has_key(before, key@));
                assert forall|a: int, b: int| 0 <= a < b < after.len() implies (#[trigger] after[a]).key.rank()
                    < (#[trigger] after[b]).key.rank() by {
                    let pa = if a < i { a } else { a + 1 };
                    let pb = if b < i { b } else { b + 1 };
                    assert(before[pa].key.rank() < before[pb].key.rank());
                }
                assert forall|k: Seq<u8>| has_key(after, k) <==> (k != key@ && has_key(before, k)) by {
                    if has_key(after, k) {
                        let j = choose|j: int| 0 <= j < after.len() && (#[trigger] after[j]).key@ == k;
                        let pj = if j < i { j } else { j + 1 };
                        assert(before[pj].key@ == k);
                        if k == key@ {
                            Address::lemma_view_injective(before[pj].key, before[i as int].key);
                            assert(before[pj].key.rank() == before[i as int].key.rank());
                            if pj < i {
                                assert(before[pj].key.rank() < before[i as int].key.rank());
                            } else {
                                assert(before[i as int].key.rank() < before[pj].key.rank());
                            }
                        }
                    }
                    if k != key@ && has_key(before, k) {
                        let j = choose|j: int| 0 <= j < before.len() && (#[trigger] before[j]).key@ == k;
                        if j < i {
                            assert(after[j].key@ == k);
                        } else {
                            assert(after[j - 1].key@ == k);
                        }
                    }
                }
                assert forall|k: Seq<u8>| has_key(after, k) implies #[trigger] entries_map(after)[k]
                    == entries_map(before).remove(key@)[k] by {
                    let j = choose|j: int| 0 <= j < after.len() && (#[trigger] after[j]).key@ == k;
                    lemma_entry_value(after, j);
                    let pj = if j < i { j } else { j + 1 };
                    lemma_entry_value(before, pj);
                }
                assert(entries_map(after) =~= entries_map(before).remove(key@));
            }
        } else {
            proof {
                if has_key(before, key@) {
                    let j = choose|j: int| 0 <= j < before.len() && (#[trigger] before[j]).key@ == key@;
                    Address::lemma_view_injective(before[j].key, *key);
                    if i < before.len() {
                        Address::lemma_rank_injective(before[i as int].key, *key);
                    }
                }
                assert(entries_map(before) =~= entries_map(before).remove(key@));
            }
        }
    }
}

} // verus!
