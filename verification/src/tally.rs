//! The arithmetic of a tally: totals, the leading and runner-up options,
//! early decision, and the quorum and support tests.

use vstd::prelude::*;

verus! {

/// The total weight cast.
pub open spec fn sum(v: Seq<u64>) -> nat
    decreases v.len(),
{
    if v.len() == 0 {
        0
    } else {
        sum(v.drop_last()) + v.last() as nat
    }
}

/// The greatest weight cast for one option; 0 for an empty tally.
pub open spec fn max_of(v: Seq<u64>) -> nat
    decreases v.len(),
{
    if v.len() == 0 {
        0
    } else if v.last() > max_of(v.drop_last()) {
        v.last() as nat
    } else {
        max_of(v.drop_last())
    }
}

/// The leading option: the first slot that holds the greatest weight; 0 for
/// an empty tally.
pub open spec fn leading(v: Seq<u64>) -> int
    decreases v.len(),
{
    if v.len() == 0 {
        0
    } else if v.last() > max_of(v.drop_last()) {
        v.len() - 1
    } else {
        leading(v.drop_last())
    }
}

/// The greatest weight cast for an option other than `skip`; 0 where there
/// is no other option.
pub open spec fn max_except(v: Seq<u64>, skip: int) -> nat
    decreases v.len(),
{
    if v.len() == 0 {
        0
    } else if v.len() - 1 != skip && v.last() > max_except(v.drop_last(), skip) {
        v.last() as nat
    } else {
        max_except(v.drop_last(), skip)
    }
}

/// The first slot other than `skip` that holds the greatest weight among
/// the others. Where `skip` is the only slot the answer is the slot after it.
pub open spec fn first_except(v: Seq<u64>, skip: int) -> int
    decreases v.len(),
{
    if v.len() == 0 {
        0
    } else if v.len() - 1 == skip {
        if skip == 0 {
            1
        } else {
            first_except(v.drop_last(), skip)
        }
    } else if v.last() > max_except(v.drop_last(), skip) {
        v.len() - 1
    } else {
        first_except(v.drop_last(), skip)
    }
}

/// The weight of the runner-up: the greatest weight cast for an option
/// other than the leading one.
pub open spec fn second_max(v: Seq<u64>) -> nat {
    max_except(v, leading(v))
}

/// The runner-up option.
pub open spec fn runner_up(v: Seq<u64>) -> int {
    first_except(v, leading(v))
}

/// Whether the lead can no longer be overturned: the leading option has more
/// than the runner-up would have with all the weight that is still to vote.
pub open spec fn tipped(v: Seq<u64>, total: nat) -> bool {
    max_of(v) > second_max(v) + (total - sum(v))
}

/// Whether `part` out of `whole` is at least `percent` in a hundred. Nothing
/// is a share of nothing.
pub open spec fn share_reached(part: nat, whole: nat, percent: nat) -> bool {
    whole > 0 && part * 100 >= percent * whole
}

/// No option has more than the greatest weight, the leading option has it,
/// and no option before the leading one has it.
pub proof fn lemma_leading(v: Seq<u64>)
    ensures
        forall|i: int| 0 <= i < v.len() ==> v[i] <= max_of(v),
        v.len() > 0 ==> 0 <= leading(v) < v.len() && v[leading(v)] == max_of(v),
        forall|i: int| 0 <= i < leading(v) && i < v.len() ==> v[i] < max_of(v),
    decreases v.len(),
{
    if v.len() > 0 {
        let init = v.drop_last();
        lemma_leading(init);
        assert forall|i: int| 0 <= i < v.len() implies v[i] <= max_of(v) by {
            if i < init.len() {
                assert(init[i] == v[i]);
            }
        }
        assert forall|i: int| 0 <= i < leading(v) && i < v.len() implies v[i] < max_of(v) by {
            if i < init.len() {
                assert(init[i] == v[i]);
            }
        }
        if !(v.last() > max_of(init)) {
            if init.len() > 0 {
                assert(init[leading(init)] == v[leading(init)]);
            }
        }
    }
}

/// No option but `skip` has more than the greatest weight among the others;
/// where there is another option, the first of them to hold that weight is
/// the one found.
pub proof fn lemma_except(v: Seq<u64>, skip: int)
    ensures
        forall|i: int| 0 <= i < v.len() && i != skip ==> v[i] <= max_except(v, skip),
        v.len() >= 2 || (v.len() == 1 && skip != 0) ==> {
            &&& 0 <= first_except(v, skip) < v.len()
            &&& first_except(v, skip) != skip
            &&& v[first_except(v, skip)] == max_except(v, skip)
        },
        forall|i: int|
            0 <= i < first_except(v, skip) && i < v.len() && i != skip ==> v[i] < max_except(v, skip),
    decreases v.len(),
{
    if v.len() > 0 {
        let init = v.drop_last();
        let n = v.len() - 1;
        lemma_except(init, skip);
        assert forall|i: int| 0 <= i < v.len() && i != skip implies v[i] <= max_except(v, skip) by {
            if i < n {
                assert(init[i] == v[i]);
            }
        }
        assert forall|i: int|
            0 <= i < first_except(v, skip) && i < v.len() && i != skip implies v[i] < max_except(
            v,
            skip,
        ) by {
            if i < n {
                assert(init[i] == v[i]);
            }
        }
        if v.len() >= 2 || (v.len() == 1 && skip != 0) {
            if n == skip {
                assert(init[first_except(init, skip)] == v[first_except(init, skip)]);
            } else if v.last() > max_except(init, skip) {
            } else if init.len() >= 2 || (init.len() == 1 && skip != 0) {
                assert(init[first_except(init, skip)] == v[first_except(init, skip)]);
            } else if init.len() == 1 {
                assert(init.drop_last().len() == 0);
                assert(max_except(init, skip) == 0);
                assert(first_except(init, skip) == 1);
            } else {
                assert(max_except(init, skip) == 0);
                assert(first_except(init, skip) == 0);
            }
        }
    }
}

/// The total of a tally is at most its length times the greatest `u64`.
pub proof fn lemma_sum_bound(v: Seq<u64>)
    ensures
        sum(v) <= v.len() * 0xffff_ffff_ffff_ffff,
    decreases v.len(),
{
    if v.len() > 0 {
        lemma_sum_bound(v.drop_last());
        assert(v.len() * 0xffff_ffff_ffff_ffff == (v.len() - 1) * 0xffff_ffff_ffff_ffff
            + 0xffff_ffff_ffff_ffff) by (nonlinear_arith);
    }
}

/// The total weight cast.
pub fn total_votes(votes: &Vec<u64>) -> (s: u128)
    ensures
        s == sum(votes@),
{
    let mut s: u128 = 0;
    let mut i: usize = 0;
    while i < votes.len()
        invariant
            i <= votes@.len(),
            s == sum(votes@.take(i as int)),
        decreases votes@.len() - i,
    {
        proof {
            lemma_sum_bound(votes@.take(i as int));
            assert(votes@.take(i as int + 1).drop_last() == votes@.take(i as int));
            assert(i * 0xffff_ffff_ffff_ffff <= 0xffff_ffff_ffff_ffff * 0xffff_ffff_ffff_ffff)
                by (nonlinear_arith)
                requires
                    0 <= i <= 0xffff_ffff_ffff_ffff,
            ;
        }
        s = s + votes[i] as u128;
        i += 1;
    }
    assert(votes@.take(votes@.len() as int) == votes@);
    s
}

/// The leading option.
pub fn leading_slot(votes: &Vec<u64>) -> (l: usize)
    ensures
        l == leading(votes@),
        votes@.len() > 0 ==> l < votes@.len() && votes@[l as int] == max_of(votes@),
{
    let mut l: usize = 0;
    let mut best: u64 = 0;
    let mut i: usize = 0;
    while i < votes.len()
        invariant
            i <= votes@.len(),
            l == leading(votes@.take(i as int)),
            best == max_of(votes@.take(i as int)),
        decreases votes@.len() - i,
    {
        assert(votes@.take(i as int + 1).drop_last() == votes@.take(i as int));
        if votes[i] > best {
            l = i;
            best = votes[i];
        }
        i += 1;
    }
    assert(votes@.take(votes@.len() as int) == votes@);
    proof {
        lemma_leading(votes@);
    }
    l
}

/// The runner-up option and its weight.
pub fn runner_up_slot(votes: &Vec<u64>) -> (r: (usize, u64))
    requires
        votes@.len() < usize::MAX,
    ensures
        r.0 == runner_up(votes@),
        r.1 == second_max(votes@),
{
    let skip = leading_slot(votes);
    let mut at: usize = 0;
    let mut best: u64 = 0;
    let mut i: usize = 0;
    while i < votes.len()
        invariant
            i <= votes@.len(),
            votes@.len() < usize::MAX,
            at == first_except(votes@.take(i as int), skip as int),
            best == max_except(votes@.take(i as int), skip as int),
            at <= i,
        decreases votes@.len() - i,
    {
        assert(votes@.take(i as int + 1).drop_last() == votes@.take(i as int));
        if i == skip {
            if skip == 0 {
                at = i + 1;
            }
        } else if votes[i] > best {
            at = i;
            best = votes[i];
        }
        i += 1;
    }
    assert(votes@.take(votes@.len() as int) == votes@);
    (at, best)
}

/// Whether the lead can no longer be overturned, `total` being all the
/// weight that can vote.
pub fn tip(votes: &Vec<u64>, total: u64) -> (t: bool)
    requires
        votes@.len() < usize::MAX,
    ensures
        t == tipped(votes@, total as nat),
{
    let cast = total_votes(votes);
    let lead = leading_slot(votes);
    let second = runner_up_slot(votes).1;
    let most: u64 = if votes.len() > 0 {
        votes[lead]
    } else {
        0
    };
    proof {
        lemma_sum_bound(votes@);
        assert(votes@.len() * 0xffff_ffff_ffff_ffff <= 0xffff_ffff_ffff_fffe * 0xffff_ffff_ffff_ffff)
            by (nonlinear_arith)
            requires
                0 <= votes@.len() <= 0xffff_ffff_ffff_fffe,
        ;
    }
    most as u128 + cast > second as u128 + total as u128
}

/// Whether `part` out of `whole` is at least `percent` in a hundred.
pub fn reaches_share(part: u64, whole: u64, percent: u8) -> (r: bool)
    ensures
        r == share_reached(part as nat, whole as nat, percent as nat),
{
    if whole == 0 {
        return false;
    }
    assert(part * 100 <= 0xffff_ffff_ffff_ffff * 100) by (nonlinear_arith)
        requires
            0 <= part <= 0xffff_ffff_ffff_ffff,
    ;
    assert(percent * whole <= 255 * 0xffff_ffff_ffff_ffff) by (nonlinear_arith)
        requires
            0 <= percent <= 255,
            0 <= whole <= 0xffff_ffff_ffff_ffff,
    ;
    (part as u128) * 100 >= (percent as u128) * (whole as u128)
}

} // verus!
