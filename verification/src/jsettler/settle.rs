use vstd::prelude::*;

verus! {

/// A count, or zero where it is negative.
pub open spec fn positive_part(v: int) -> int {
    if v > 0 {
        v
    } else {
        0
    }
}

/// How far below zero a count is, or zero where it is not negative.
pub open spec fn negative_part(v: int) -> int {
    if v < 0 {
        -v
    } else {
        0
    }
}

/// The sum of the counts.
pub open spec fn total(counts: Seq<int>) -> int
    decreases counts.len(),
{
    if counts.len() == 0 {
        0
    } else {
        total(counts.drop_last()) + counts.last()
    }
}

/// The sum of the positive counts.
pub open spec fn holdings(counts: Seq<int>) -> int
    decreases counts.len(),
{
    if counts.len() == 0 {
        0
    } else {
        holdings(counts.drop_last()) + positive_part(counts.last())
    }
}

/// How far the negative counts fall below zero, all together.
pub open spec fn shortfall(counts: Seq<int>) -> int
    decreases counts.len(),
{
    if counts.len() == 0 {
        0
    } else {
        shortfall(counts.drop_last()) + negative_part(counts.last())
    }
}

/// What is still owed when the counts before position `i` have paid what
/// they could.
pub open spec fn owed_at(counts: Seq<int>, i: int) -> int {
    let left = shortfall(counts) - holdings(counts.take(i));
    if left > 0 {
        left
    } else {
        0
    }
}

/// The counts once the negative ones are set to zero and what they fell
/// short is taken from the positive ones, the first positions paying first.
pub open spec fn settled(counts: Seq<int>) -> Seq<int> {
    Seq::new(
        counts.len(),
        |i: int|
            {
                let p = positive_part(counts[i]);
                let owed = owed_at(counts, i);
                if owed >= p {
                    0
                } else {
                    p - owed
                }
            },
    )
}

proof fn lemma_take_step(counts: Seq<int>, i: int)
    requires
        0 <= i < counts.len(),
    ensures
        counts.take(i + 1).drop_last() == counts.take(i),
        counts.take(i + 1).last() == counts[i],
{
    assert(counts.take(i + 1).drop_last() =~= counts.take(i));
}

proof fn lemma_sums_nonnegative(counts: Seq<int>)
    ensures
        holdings(counts) >= 0,
        shortfall(counts) >= 0,
        total(counts) == holdings(counts) - shortfall(counts),
    decreases counts.len(),
{
    if counts.len() > 0 {
        lemma_sums_nonnegative(counts.drop_last());
    }
}

/// The holdings of a prefix grow with the prefix.
proof fn lemma_holdings_monotone(counts: Seq<int>, i: int, j: int)
    requires
        0 <= i <= j <= counts.len(),
    ensures
        holdings(counts.take(i)) <= holdings(counts.take(j)),
    decreases j - i,
{
    if i < j {
        lemma_holdings_monotone(counts, i, j - 1);
        lemma_take_step(counts, j - 1);
    }
}

/// Up to position `k`, the settled counts sum to what the first `k` counts
/// hold less what they paid.
proof fn lemma_settled_prefix_total(counts: Seq<int>, k: int)
    requires
        0 <= k <= counts.len(),
    ensures
        ({
            let h = holdings(counts.take(k));
            let d = shortfall(counts);
            total(settled(counts).take(k)) == h - (if h < d { h } else { d })
        }),
    decreases k,
{
    lemma_sums_nonnegative(counts);
    if k == 0 {
        assert(settled(counts).take(0) =~= Seq::<int>::empty());
        assert(counts.take(0) =~= Seq::<int>::empty());
    } else {
        lemma_settled_prefix_total(counts, k - 1);
        lemma_take_step(counts, k - 1);
        lemma_take_step(settled(counts), k - 1);
    }
}

/// Settling keeps the total of counts whose total is not negative, and
/// leaves no negative count.
pub proof fn lemma_settled_keeps_total(counts: Seq<int>)
    requires
        total(counts) >= 0,
    ensures
        total(settled(counts)) == total(counts),
        forall|i: int| 0 <= i < counts.len() ==> #[trigger] settled(counts)[i] >= 0,
{
    lemma_sums_nonnegative(counts);
    lemma_settled_prefix_total(counts, counts.len() as int);
    assert(counts.take(counts.len() as int) =~= counts);
    assert(settled(counts).take(counts.len() as int) =~= settled(counts));
}

/// Counts whose total is negative settle to nothing at all.
pub proof fn lemma_settled_empties_a_debt(counts: Seq<int>)
    requires
        total(counts) < 0,
    ensures
        forall|i: int| 0 <= i < counts.len() ==> #[trigger] settled(counts)[i] == 0,
{
    lemma_sums_nonnegative(counts);
    assert forall|i: int| 0 <= i < counts.len() implies #[trigger] settled(counts)[i] == 0 by {
        lemma_holdings_monotone(counts, i + 1, counts.len() as int);
        lemma_take_step(counts, i);
        assert(counts.take(counts.len() as int) =~= counts);
    }
}

/// Counts with no negative one are left as they are.
pub proof fn lemma_settled_keeps_nonnegative(counts: Seq<int>)
    requires
        forall|i: int| 0 <= i < counts.len() ==> #[trigger] counts[i] >= 0,
    ensures
        settled(counts) == counts,
{
    lemma_no_shortfall(counts);
    assert forall|i: int| 0 <= i < counts.len() implies #[trigger] settled(counts)[i] == counts[i] by {
        lemma_sums_nonnegative(counts.take(i));
    }
    assert(settled(counts) =~= counts);
}

proof fn lemma_no_shortfall(counts: Seq<int>)
    requires
        forall|i: int| 0 <= i < counts.len() ==> #[trigger] counts[i] >= 0,
    ensures
        shortfall(counts) == 0,
    decreases counts.len(),
{
    if counts.len() > 0 {
        lemma_no_shortfall(counts.drop_last());
    }
}

/// The counts of a vector of bytes, as integers.
pub open spec fn counts_of(v: Seq<i8>) -> Seq<int> {
    Seq::new(v.len(), |i: int| v[i] as int)
}

/// Sets the negative counts to zero and takes what they fell short from the
/// positive counts, the first positions paying first, until nothing is owed.
pub fn settle(counts: &mut Vec<i8>)
    ensures
        final(counts).len() == old(counts).len(),
        counts_of(final(counts)@) == settled(counts_of(old(counts)@)),
{
    let ghost start = counts_of(counts@);
    let n = counts.len();
    let mut owed: i128 = 0;
    let mut i: usize = 0;
    while i < n
        invariant
            n == counts.len() == start.len(),
            0 <= i <= n,
            owed == shortfall(start.take(i as int)),
            0 <= owed <= 128 * i,
            forall|j: int| 0 <= j < i ==> #[trigger] counts@[j] == positive_part(start[j]),
            forall|j: int| i <= j < n ==> #[trigger] counts@[j] == start[j],
        decreases n - i,
    {
        proof {
            lemma_take_step(start, i as int);
        }
        let v = counts[i];
        if v < 0 {
            owed = owed + (0 - v as i128);
            counts.set(i, 0);
        }
        i = i + 1;
    }
    proof {
        assert(start.take(n as int) =~= start);
        lemma_sums_nonnegative(start);
    }
    let ghost debt = owed as int;
    let mut k: usize = 0;
    while k < n
        invariant
            n == counts.len() == start.len(),
            0 <= k <= n,
            debt == shortfall(start),
            owed == owed_at(start, k as int),
            0 <= owed <= 128 * n,
            forall|j: int| 0 <= j < k ==> #[trigger] counts@[j] == settled(start)[j],
            forall|j: int| k <= j < n ==> #[trigger] counts@[j] == positive_part(start[j]),
        decreases n - k,
    {
        proof {
            lemma_take_step(start, k as int);
            lemma_sums_nonnegative(start.take(k as int));
        }
        let v = counts[k];
        if v > 0 && owed > 0 {
            let take: i128 = if (v as i128) < owed {
                v as i128
            } else {
                owed
            };
            counts.set(k, (v as i128 - take) as i8);
            owed = owed - take;
        }
        k = k + 1;
    }
    proof {
        assert(counts_of(counts@) =~= settled(start));
    }
}

} // verus!
