//! Per-contributor cumulative deposit records, and the facts about their sums
//! that the accounting invariant rests on.
//!
//! A campaign's records form a sequence of entries with pairwise-distinct
//! contributors and strictly positive cumulative amounts; a contributor with
//! no entry has implicitly deposited zero.

use vstd::prelude::*;

verus! {

/// One contributor's cumulative deposit into one campaign.
#[derive(Copy, Clone, Debug, PartialEq, Eq, Structural)]
pub struct ContribEntry {
    /// The contributing principal.
    pub contributor: u64,
    /// Everything this principal has deposited into the campaign so far.
    pub amount: i128,
}

/// The sum of the recorded amounts.
pub open spec fn sum_amounts(s: Seq<ContribEntry>) -> int
    decreases s.len(),
{
    if s.len() == 0 {
        0
    } else {
        sum_amounts(s.drop_last()) + s.last().amount
    }
}

/// The amount recorded for contributor `c`: zero when `c` has no entry, and
/// the amount of `c`'s last entry otherwise (its only one, in a well-formed
/// record sequence).
pub open spec fn amount_of(s: Seq<ContribEntry>, c: u64) -> int
    decreases s.len(),
{
    if s.len() == 0 {
        0
    } else if s.last().contributor == c {
        s.last().amount as int
    } else {
        amount_of(s.drop_last(), c)
    }
}

/// Whether contributor `c` has an entry.
pub open spec fn has_entry(s: Seq<ContribEntry>, c: u64) -> bool {
    exists|j: int| 0 <= j < s.len() && (#[trigger] s[j]).contributor == c
}

/// Well-formed records: every amount strictly positive, every contributor
/// recorded at most once.
pub open spec fn entries_wf(s: Seq<ContribEntry>) -> bool {
    &&& forall|j: int| 0 <= j < s.len() ==> (#[trigger] s[j]).amount > 0
    &&& forall|j: int, k: int|
        0 <= j < k < s.len() ==> s[j].contributor != s[k].contributor
}

/// In well-formed records the sum is non-negative.
pub proof fn lemma_sum_nonneg(s: Seq<ContribEntry>)
    requires
        entries_wf(s),
    ensures
        sum_amounts(s) >= 0,
    decreases s.len(),
{
    if s.len() > 0 {
        assert(entries_wf(s.drop_last()));
        lemma_sum_nonneg(s.drop_last());
    }
}

/// In well-formed records each contributor's amount is non-negative and never
/// exceeds the sum of all amounts.
pub proof fn lemma_amount_le_sum(s: Seq<ContribEntry>, c: u64)
    requires
        entries_wf(s),
    ensures
        0 <= amount_of(s, c) <= sum_amounts(s),
    decreases s.len(),
{
    if s.len() > 0 {
        assert(entries_wf(s.drop_last()));
        lemma_sum_nonneg(s.drop_last());
        lemma_amount_le_sum(s.drop_last(), c);
    }
}

/// In well-formed records a contributor's amount is positive exactly when the
/// contributor has an entry, and that entry holds the amount.
pub proof fn lemma_amount_at(s: Seq<ContribEntry>, j: int)
    requires
        entries_wf(s),
        0 <= j < s.len(),
    ensures
        amount_of(s, s[j].contributor) == s[j].amount,
    decreases s.len(),
{
    if j < s.len() - 1 {
        assert(entries_wf(s.drop_last()));
        assert(s.drop_last()[j] == s[j]);
        lemma_amount_at(s.drop_last(), j);
        assert(s.last().contributor != s[j].contributor);
    }
}

/// A contributor without an entry has amount zero.
pub proof fn lemma_amount_absent(s: Seq<ContribEntry>, c: u64)
    requires
        !has_entry(s, c),
    ensures
        amount_of(s, c) == 0,
    decreases s.len(),
{
    if s.len() > 0 {
        assert(s.last() == s[s.len() - 1]);
        assert(forall|j: int|
            0 <= j < s.drop_last().len() ==> s.drop_last()[j] == s[j]);
        lemma_amount_absent(s.drop_last(), c);
    }
}

/// Raising entry `j`'s amount by `d` raises the sum by `d` and the entry's
/// contributor's amount by `d`, and leaves every other contributor's amount
/// as it was.
pub proof fn lemma_update_amount(s: Seq<ContribEntry>, j: int, d: int, e: ContribEntry)
    requires
        entries_wf(s),
        0 <= j < s.len(),
        e.contributor == s[j].contributor,
        e.amount == s[j].amount + d,
    ensures
        sum_amounts(s.update(j, e)) == sum_amounts(s) + d,
        amount_of(s.update(j, e), e.contributor) == amount_of(s, e.contributor) + d,
        forall|c: u64|
            c != e.contributor ==> amount_of(s.update(j, e), c) == amount_of(s, c),
    decreases s.len(),
{
    let t = s.update(j, e);
    if j == s.len() - 1 {
        assert(t.drop_last() =~= s.drop_last());
        assert(t.last() == e);
        assert forall|c: u64|
            c != e.contributor implies amount_of(t, c) == amount_of(s, c) by {
            assert(amount_of(t, c) == amount_of(t.drop_last(), c));
            assert(amount_of(s, c) == amount_of(s.drop_last(), c));
        }
    } else {
        assert(t.last() == s.last());
        assert(t.drop_last() =~= s.drop_last().update(j, e));
        assert(entries_wf(s.drop_last()));
        lemma_update_amount(s.drop_last(), j, d, e);
        assert(s.last().contributor != e.contributor);
        assert forall|c: u64|
            c != e.contributor implies amount_of(t, c) == amount_of(s, c) by {
            if c != s.last().contributor {
                assert(amount_of(t, c) == amount_of(t.drop_last(), c));
                assert(amount_of(s, c) == amount_of(s.drop_last(), c));
            }
        }
    }
}

/// Appending an entry for a new contributor adds its amount to the sum, sets
/// that contributor's amount, and leaves every other contributor's amount as
/// it was.
pub proof fn lemma_push_amount(s: Seq<ContribEntry>, e: ContribEntry)
    ensures
        sum_amounts(s.push(e)) == sum_amounts(s) + e.amount,
        amount_of(s.push(e), e.contributor) == e.amount,
        forall|c: u64| c != e.contributor ==> amount_of(s.push(e), c) == amount_of(s, c),
{
    assert(s.push(e).drop_last() =~= s);
    assert(s.push(e).last() == e);
}

/// Appending an entry for a new contributor keeps the records well-formed.
pub proof fn lemma_push_wf(s: Seq<ContribEntry>, e: ContribEntry)
    requires
        entries_wf(s),
        !has_entry(s, e.contributor),
        e.amount > 0,
    ensures
        entries_wf(s.push(e)),
{
    let t = s.push(e);
    assert forall|j: int, k: int|
        0 <= j < k < t.len() implies t[j].contributor != t[k].contributor by {
        if k == s.len() {
            assert(t[j] == s[j]);
        }
    }
}

} // verus!
