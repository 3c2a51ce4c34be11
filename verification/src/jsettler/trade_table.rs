use vstd::prelude::*;
use crate::utils::resource::{Resource, Resources};
use crate::utils::seqs::{concat, lemma_concat_new_succ};

verus! {

/// The bundle with the count at place `i` of `Resource::ALL` moved by `d`.
pub open spec fn nudge(r: Resources, i: int, d: int) -> Resources {
    r.with(Resource::at_index(i), (r.get(Resource::at_index(i)) + d) as i8)
}

pub open spec fn no_change() -> Resources {
    Resources::spec_new(0, 0, 0, 0, 0)
}

/// Giving the resource at `g` for the one at `a`, when they differ.
pub open spec fn one_for_one_pair(g: int, a: int) -> Seq<Resources> {
    if g != a {
        seq![nudge(nudge(no_change(), g, -1), a, 1)]
    } else {
        Seq::empty()
    }
}

pub open spec fn one_for_one_block(g: int) -> Seq<Resources> {
    concat(Seq::new(5, |a: int| one_for_one_pair(g, a)))
}

/// Giving the resources at `g1` and `g2` for the one at `a`, when `a` is
/// neither of them.
pub open spec fn two_for_one_entry(g1: int, g2: int, a: int) -> Seq<Resources> {
    if g1 != a && g2 != a {
        seq![nudge(nudge(nudge(no_change(), g1, -1), g2, -1), a, 1)]
    } else {
        Seq::empty()
    }
}

pub open spec fn two_for_one_g2(g1: int, g2: int) -> Seq<Resources> {
    concat(Seq::new(5, |a: int| two_for_one_entry(g1, g2, a)))
}

pub open spec fn two_for_one_block(g1: int) -> Seq<Resources> {
    concat(Seq::new((5 - g1) as nat, |k: int| two_for_one_g2(g1, g1 + k)))
}

/// Giving the resource at `g` for those at `a1` and `a2`, when `g` is
/// neither of them.
pub open spec fn one_for_two_entry(g: int, a1: int, a2: int) -> Seq<Resources> {
    if g != a1 && g != a2 {
        seq![nudge(nudge(nudge(no_change(), g, -1), a1, 1), a2, 1)]
    } else {
        Seq::empty()
    }
}

pub open spec fn one_for_two_a1(g: int, a1: int) -> Seq<Resources> {
    concat(Seq::new((5 - a1) as nat, |k: int| one_for_two_entry(g, a1, a1 + k)))
}

pub open spec fn one_for_two_block(g: int) -> Seq<Resources> {
    concat(Seq::new(5, |a1: int| one_for_two_a1(g, a1)))
}

/// What each trade between players changes for the player who proposes it:
/// one resource for one other, two (maybe alike) for one other, one for two
/// others (maybe alike), in the order in which the trades are listed.
pub open spec fn trade_changes() -> Seq<Resources> {
    concat(Seq::new(5, |g: int| one_for_one_block(g)))
        + concat(Seq::new(5, |g: int| two_for_one_block(g)))
        + concat(Seq::new(5, |g: int| one_for_two_block(g)))
}

/// The features of a trade offered to the opponent at place `p` (from 0) of
/// `n - 1` opponents: the change for the player, counted in the order of
/// `Resource::ALL`; which opponent it is; and the change of the size of the
/// opponent's hand.
pub open spec fn feature_row(change: Resources, n: int, p: int) -> Seq<i8> {
    Seq::new(
        (5 + 2 * (n - 1)) as nat,
        |k: int|
            if k < 5 {
                change.get(Resource::at_index(k))
            } else if k == 5 + p {
                1i8
            } else if k == 5 + (n - 1) + p {
                (-change.sum()) as i8
            } else {
                0i8
            },
    )
}

/// The rows of all trades of a change, one per opponent.
pub open spec fn change_rows(change: Resources, n: int) -> Seq<Seq<i8>> {
    Seq::new((n - 1) as nat, |p: int| feature_row(change, n, p))
}

/// The feature table of every trade between players, for `n` players.
pub open spec fn trade_table_rows(n: int) -> Seq<Seq<i8>> {
    concat(Seq::new(trade_changes().len(), |i: int| change_rows(trade_changes()[i], n)))
}

/// The rows of a table, each seen as a sequence.
pub open spec fn rows_of(table: Seq<Vec<i8>>) -> Seq<Seq<i8>> {
    table.map_values(|row: Vec<i8>| row@)
}

/// Every count of the change is between -2 and 2.
pub open spec fn small(r: Resources) -> bool {
    &&& -2 <= r.brick <= 2
    &&& -2 <= r.lumber <= 2
    &&& -2 <= r.ore <= 2
    &&& -2 <= r.grain <= 2
    &&& -2 <= r.wool <= 2
}

pub open spec fn all_small(s: Seq<Resources>) -> bool {
    forall|j: int| 0 <= j < s.len() ==> small(#[trigger] s[j])
}

fn nudged(r: Resources, i: usize, d: i8) -> (out: Resources)
    requires
        i < 5,
        -1 <= d <= 1,
        -3 <= r.get(Resource::at_index(i as int)) <= 3,
    ensures
        out == nudge(r, i as int, d as int),
{
    let mut out = r;
    let v = r.get_at(i);
    out.set_at(i, v + d);
    out
}

fn push_one_for_one(changes: &mut Vec<Resources>)
    requires
        all_small(old(changes)@),
    ensures
        all_small(final(changes)@),
        final(changes)@ == old(changes)@ + concat(Seq::new(5, |g: int| one_for_one_block(g))),
{
    let ghost base = changes@;
    let ghost fg = |g: int| one_for_one_block(g);
    let mut g: usize = 0;
    while g < 5
        invariant
            g <= 5,
            fg == (|g: int| one_for_one_block(g)),
            changes@ == base + concat(Seq::new(g as nat, fg)),
            all_small(changes@),
        decreases 5 - g,
    {
        let ghost base_g = changes@;
        let ghost fa = |a: int| one_for_one_pair(g as int, a);
        let mut a: usize = 0;
        while a < 5
            invariant
                g < 5,
                a <= 5,
                fa == (|a: int| one_for_one_pair(g as int, a)),
                changes@ == base_g + concat(Seq::new(a as nat, fa)),
                all_small(changes@),
            decreases 5 - a,
        {
            if g != a {
                let diff = nudged(nudged(Resources::zero(), g, -1), a, 1);
                proof {
                    assert(small(diff));
                }
                changes.push(diff);
            }
            proof {
                lemma_concat_new_succ(a as nat, fa);
                assert(changes@ =~= base_g + concat(Seq::new((a + 1) as nat, fa)));
            }
            a = a + 1;
        }
        proof {
            lemma_concat_new_succ(g as nat, fg);
            assert(changes@ =~= base + concat(Seq::new((g + 1) as nat, fg)));
        }
        g = g + 1;
    }
}

fn push_two_for_one(changes: &mut Vec<Resources>)
    requires
        all_small(old(changes)@),
    ensures
        all_small(final(changes)@),
        final(changes)@ == old(changes)@ + concat(Seq::new(5, |g: int| two_for_one_block(g))),
{
    let ghost base = changes@;
    let ghost fg = |g: int| two_for_one_block(g);
    let mut g1: usize = 0;
    while g1 < 5
        invariant
            g1 <= 5,
            fg == (|g: int| two_for_one_block(g)),
            changes@ == base + concat(Seq::new(g1 as nat, fg)),
            all_small(changes@),
        decreases 5 - g1,
    {
        let ghost base_g = changes@;
        let ghost fk = |k: int| two_for_one_g2(g1 as int, g1 + k);
        let mut g2: usize = g1;
        while g2 < 5
            invariant
                g1 < 5,
                g1 <= g2 <= 5,
                fk == (|k: int| two_for_one_g2(g1 as int, g1 + k)),
                changes@ == base_g + concat(Seq::new((g2 - g1) as nat, fk)),
                all_small(changes@),
            decreases 5 - g2,
        {
            let ghost base_k = changes@;
            let ghost fa = |a: int| two_for_one_entry(g1 as int, g2 as int, a);
            let mut a: usize = 0;
            while a < 5
                invariant
                    g1 <= g2 < 5,
                    a <= 5,
                    fa == (|a: int| two_for_one_entry(g1 as int, g2 as int, a)),
                    changes@ == base_k + concat(Seq::new(a as nat, fa)),
                    all_small(changes@),
                decreases 5 - a,
            {
                if g1 != a && g2 != a {
                    let diff = nudged(nudged(nudged(Resources::zero(), g1, -1), g2, -1), a, 1);
                    proof {
                        assert(small(diff));
                    }
                    changes.push(diff);
                }
                proof {
                    lemma_concat_new_succ(a as nat, fa);
                    assert(changes@ =~= base_k + concat(Seq::new((a + 1) as nat, fa)));
                }
                a = a + 1;
            }
            proof {
                assert(Seq::new(a as nat, fa) =~= Seq::new(5, |a: int| two_for_one_entry(g1 as int, g2 as int, a)));
                assert(fk((g2 - g1) as int) == two_for_one_g2(g1 as int, g2 as int));
                lemma_concat_new_succ((g2 - g1) as nat, fk);
                assert(changes@ =~= base_g + concat(Seq::new((g2 + 1 - g1) as nat, fk)));
            }
            g2 = g2 + 1;
        }
        proof {
            assert(Seq::new((g2 - g1) as nat, fk) =~= Seq::new((5 - g1) as nat, |k: int| two_for_one_g2(g1 as int, g1 + k)));
            lemma_concat_new_succ(g1 as nat, fg);
            assert(changes@ =~= base + concat(Seq::new((g1 + 1) as nat, fg)));
        }
        g1 = g1 + 1;
    }
}

fn push_one_for_two(changes: &mut Vec<Resources>)
    requires
        all_small(old(changes)@),
    ensures
        all_small(final(changes)@),
        final(changes)@ == old(changes)@ + concat(Seq::new(5, |g: int| one_for_two_block(g))),
{
    let ghost base = changes@;
    let ghost fg = |g: int| one_for_two_block(g);
    let mut g: usize = 0;
    while g < 5
        invariant
            g <= 5,
            fg == (|g: int| one_for_two_block(g)),
            changes@ == base + concat(Seq::new(g as nat, fg)),
            all_small(changes@),
        decreases 5 - g,
    {
        let ghost base_g = changes@;
        let ghost fa1 = |a1: int| one_for_two_a1(g as int, a1);
        let mut a1: usize = 0;
        while a1 < 5
            invariant
                g < 5,
                a1 <= 5,
                fa1 == (|a1: int| one_for_two_a1(g as int, a1)),
                changes@ == base_g + concat(Seq::new(a1 as nat, fa1)),
                all_small(changes@),
            decreases 5 - a1,
        {
            let ghost base_a = changes@;
            let ghost fk = |k: int| one_for_two_entry(g as int, a1 as int, a1 + k);
            let mut a2: usize = a1;
            while a2 < 5
                invariant
                    g < 5,
                    a1 <= a2 <= 5,
                    a1 < 5,
                    fk == (|k: int| one_for_two_entry(g as int, a1 as int, a1 + k)),
                    changes@ == base_a + concat(Seq::new((a2 - a1) as nat, fk)),
                    all_small(changes@),
                decreases 5 - a2,
            {
                if g != a1 && g != a2 {
                    let diff = nudged(nudged(nudged(Resources::zero(), g, -1), a1, 1), a2, 1);
                    proof {
                        assert(small(diff));
                    }
                    changes.push(diff);
                }
                proof {
                    assert(fk((a2 - a1) as int) == one_for_two_entry(g as int, a1 as int, a2 as int));
                    lemma_concat_new_succ((a2 - a1) as nat, fk);
                    assert(changes@ =~= base_a + concat(Seq::new((a2 + 1 - a1) as nat, fk)));
                }
                a2 = a2 + 1;
            }
            proof {
                assert(Seq::new((a2 - a1) as nat, fk) =~= Seq::new((5 - a1) as nat, |k: int| one_for_two_entry(g as int, a1 as int, a1 + k)));
                lemma_concat_new_succ(a1 as nat, fa1);
                assert(changes@ =~= base_g + concat(Seq::new((a1 + 1) as nat, fa1)));
            }
            a1 = a1 + 1;
        }
        proof {
            assert(Seq::new(a1 as nat, fa1) =~= Seq::new(5, |a1: int| one_for_two_a1(g as int, a1)));
            lemma_concat_new_succ(g as nat, fg);
            assert(changes@ =~= base + concat(Seq::new((g + 1) as nat, fg)));
        }
        g = g + 1;
    }
}

/// What each trade between players changes for its proposer, in order.
pub fn list_trade_changes() -> (r: Vec<Resources>)
    ensures
        r@ == trade_changes(),
        all_small(r@),
{
    let mut changes: Vec<Resources> = Vec::new();
    proof {
        assert(all_small(changes@));
    }
    push_one_for_one(&mut changes);
    push_two_for_one(&mut changes);
    push_one_for_two(&mut changes);
    proof {
        assert(changes@ =~= trade_changes());
    }
    changes
}

/// The features of the trade with change `change` offered to opponent `p`.
fn feature_row_of(change: Resources, n: usize, p: usize) -> (r: Vec<i8>)
    requires
        1 <= n <= usize::MAX / 4,
        p < n - 1,
        small(change),
    ensures
        r@ == feature_row(change, n as int, p as int),
{
    let len = 5 + 2 * (n - 1);
    let mut feat: Vec<i8> = Vec::new();
    let mut i: usize = 0;
    while i < len
        invariant
            1 <= n <= usize::MAX / 4,
            i <= len,
            len == 5 + 2 * (n - 1),
            feat@ == Seq::new(i as nat, |k: int| 0i8),
        decreases len - i,
    {
        feat.push(0);
        proof {
            assert(feat@ =~= Seq::new((i + 1) as nat, |k: int| 0i8));
        }
        i = i + 1;
    }
    let mut r: usize = 0;
    while r < 5
        invariant
            1 <= n <= usize::MAX / 4,
            r <= 5,
            len == 5 + 2 * (n - 1),
            feat@.len() == len,
            forall|k: int| 0 <= k < r ==> #[trigger] feat@[k] == change.get(Resource::at_index(k)),
            forall|k: int| r <= k < len ==> #[trigger] feat@[k] == 0,
        decreases 5 - r,
    {
        let v = change.get_at(r);
        feat.set(r, v);
        r = r + 1;
    }
    feat.set(5 + p, 1);
    let total = change.total();
    feat.set(5 + (n - 1) + p, -total);
    proof {
        assert(feat@ =~= feature_row(change, n as int, p as int));
    }
    feat
}

/// The feature table of every trade between players, for `player_count`
/// players: for each trade in the order in which trades are listed, one row
/// per opponent.
pub fn get_trade_table(player_count: usize) -> (r: Vec<Vec<i8>>)
    requires
        1 <= player_count <= usize::MAX / 4,
    ensures
        rows_of(r@) == trade_table_rows(player_count as int),
{
    let n = player_count;
    let changes = list_trade_changes();
    let ghost f = |i: int| change_rows(trade_changes()[i], n as int);
    let mut table: Vec<Vec<i8>> = Vec::new();
    let mut i: usize = 0;
    while i < changes.len()
        invariant
            1 <= n <= usize::MAX / 4,
            i <= changes.len(),
            changes@ == trade_changes(),
            all_small(changes@),
            f == (|i: int| change_rows(trade_changes()[i], n as int)),
            rows_of(table@) == concat(Seq::new(i as nat, f)),
        decreases changes.len() - i,
    {
        let change = changes[i];
        proof {
            assert(small(changes@[i as int]));
        }
        let ghost base = rows_of(table@);
        let mut p: usize = 0;
        while p + 1 < n
            invariant
                1 <= n <= usize::MAX / 4,
                p <= n - 1,
                small(change),
                rows_of(table@) == base + change_rows(change, n as int).take(p as int),
            decreases n - p,
        {
            let row = feature_row_of(change, n, p);
            let ghost before = table@;
            table.push(row);
            proof {
                assert(rows_of(table@) =~= rows_of(before).push(row@));
                assert(change_rows(change, n as int).take(p + 1) =~= change_rows(change, n as int).take(
                    p as int,
                ).push(feature_row(change, n as int, p as int)));
                assert(rows_of(table@) =~= base + change_rows(change, n as int).take(p + 1));
            }
            p = p + 1;
        }
        proof {
            assert(change_rows(change, n as int).take(p as int) =~= change_rows(change, n as int));
            assert(f(i as int) == change_rows(change, n as int));
            lemma_concat_new_succ(i as nat, f);
        }
        i = i + 1;
    }
    proof {
        assert(Seq::new(i as nat, f) =~= Seq::new(trade_changes().len(), |i: int| change_rows(trade_changes()[i], n as int)));
    }
    table
}

} // verus!
