use vstd::prelude::*;
use crate::game::action::Action;
use crate::jsettler::trade_table::{
    change_rows, feature_row, nudge, no_change, trade_changes, trade_table_rows,
};
use crate::player::picker_player::{bump, partner_block, partner_entry, rotated, trade_actions, zero_bundle};
use crate::state::PlayerId;
use crate::utils::resource::{Resource, Resources};
use vstd::arithmetic::div_mod::{lemma_fundamental_div_mod, lemma_fundamental_div_mod_converse};
use crate::utils::seqs::{concat, lemma_concat_append, lemma_concat_flat_map, lemma_concat_map, lemma_concat_new_succ};

verus! {

/// The features of a trade proposal for `n` players: the change it makes for
/// the proposer and the opponent it is made to, counted from 1.
pub open spec fn trade_features(a: Action, n: int) -> Seq<i8> {
    match a {
        Action::TradePlayers { offer, want, partner } => feature_row(want.minus(offer), n, partner.0 - 1),
        _ => Seq::empty(),
    }
}

pub open spec fn features_of(n: int) -> spec_fn(Action) -> Seq<i8> {
    |a: Action| trade_features(a, n)
}

pub open spec fn rows_of_change(n: int) -> spec_fn(Resources) -> Seq<Seq<i8>> {
    |c: Resources| change_rows(c, n)
}

proof fn lemma_concat_single<A>(x: Seq<A>)
    ensures
        concat(seq![x]) == x,
{
    assert(seq![x].drop_last() =~= Seq::<Seq<A>>::empty());
    assert(concat(Seq::<Seq<A>>::empty()) == Seq::<A>::empty());
    assert(Seq::<A>::empty() + x =~= x);
}

/// The proposal to the opponent at place `q` (from 0) of player 0.
pub open spec fn proposal(offer: Resources, want: Resources, q: int) -> Action {
    Action::TradePlayers { offer, want, partner: PlayerId((q + 1) as u8) }
}

proof fn lemma_partner_prefix(offer: Resources, want: Resources, n: u8, k: int)
    requires
        1 <= k <= n,
    ensures
        concat(Seq::new(k as nat, |p: int| partner_entry(offer, want, PlayerId(0), n, true, p))) == Seq::new(
            (k - 1) as nat,
            |q: int| proposal(offer, want, q),
        ),
    decreases k,
{
    let entry = |p: int| partner_entry(offer, want, PlayerId(0), n, true, p);
    let tp = |q: int| proposal(offer, want, q);
    if k == 1 {
        assert(Seq::new(1, entry).drop_last() =~= Seq::<Seq<Action>>::empty());
        assert(concat(Seq::<Seq<Action>>::empty()) == Seq::<Action>::empty());
        assert(entry(0) == Seq::<Action>::empty());
        assert(concat(Seq::new(1, entry)) =~= Seq::new(0, tp));
    } else {
        lemma_partner_prefix(offer, want, n, k - 1);
        lemma_concat_new_succ((k - 1) as nat, entry);
        assert(rotated(PlayerId(0), n, k - 1) == PlayerId((k - 1) as u8));
        assert(entry(k - 1) == seq![tp(k - 2)]);
        assert(Seq::new((k - 2) as nat, tp) + seq![tp(k - 2)] =~= Seq::new((k - 1) as nat, tp));
    }
}

/// Proposing a trade to each opponent of player 0 gives one feature row per
/// opponent, in order.
proof fn lemma_partner_rows(offer: Resources, want: Resources, n: u8)
    requires
        n >= 1,
    ensures
        partner_block(offer, want, PlayerId(0), n, true).map_values(features_of(n as int)) == change_rows(
            want.minus(offer),
            n as int,
        ),
{
    let tp = |q: int| proposal(offer, want, q);
    lemma_partner_prefix(offer, want, n, n as int);
    assert(Seq::new((n - 1) as nat, tp).map_values(features_of(n as int)) =~= change_rows(want.minus(offer), n as int));
}

proof fn lemma_one_for_one_entry(g: int, a: int, n: u8)
    requires
        0 <= g < 5,
        0 <= a < 5,
        n >= 1,
    ensures
        concat(crate::jsettler::trade_table::one_for_one_pair(g, a).map_values(rows_of_change(n as int)))
            == crate::player::picker_player::one_for_one_pair(g, a, PlayerId(0), n, true).map_values(features_of(n as int)),
{
    if g != a {
        let offer = Resources::one(Resource::at_index(g), 1);
        let want = Resources::one(Resource::at_index(a), 1);
        lemma_partner_rows(offer, want, n);
        assert(want.minus(offer) == nudge(nudge(no_change(), g, -1), a, 1));
        assert(crate::jsettler::trade_table::one_for_one_pair(g, a).map_values(rows_of_change(n as int)) =~= seq![
            change_rows(want.minus(offer), n as int),
        ]);
        lemma_concat_single(change_rows(want.minus(offer), n as int));
    } else {
        assert(crate::jsettler::trade_table::one_for_one_pair(g, a).map_values(rows_of_change(n as int)) =~= Seq::<
            Seq<Seq<i8>>,
        >::empty());
        assert(crate::player::picker_player::one_for_one_pair(g, a, PlayerId(0), n, true).map_values(
            features_of(n as int),
        ) =~= Seq::<Seq<i8>>::empty());
    }
}

proof fn lemma_two_for_one_entry(g1: int, g2: int, a: int, n: u8)
    requires
        0 <= g1 < 5,
        0 <= g2 < 5,
        0 <= a < 5,
        n >= 1,
    ensures
        concat(crate::jsettler::trade_table::two_for_one_entry(g1, g2, a).map_values(rows_of_change(n as int)))
            == crate::player::picker_player::two_for_one_entry(g1, g2, a, PlayerId(0), n, true).map_values(
            features_of(n as int),
        ),
{
    if g1 != a && g2 != a {
        let offer = bump(bump(zero_bundle(), g1), g2);
        let want = bump(zero_bundle(), a);
        lemma_partner_rows(offer, want, n);
        assert(want.minus(offer) == nudge(nudge(nudge(no_change(), g1, -1), g2, -1), a, 1));
        assert(crate::jsettler::trade_table::two_for_one_entry(g1, g2, a).map_values(rows_of_change(n as int))
            =~= seq![change_rows(want.minus(offer), n as int)]);
        lemma_concat_single(change_rows(want.minus(offer), n as int));
    } else {
        assert(crate::jsettler::trade_table::two_for_one_entry(g1, g2, a).map_values(rows_of_change(n as int))
            =~= Seq::<Seq<Seq<i8>>>::empty());
        assert(crate::player::picker_player::two_for_one_entry(g1, g2, a, PlayerId(0), n, true).map_values(
            features_of(n as int),
        ) =~= Seq::<Seq<i8>>::empty());
    }
}

proof fn lemma_one_for_two_entry(g: int, a1: int, a2: int, n: u8)
    requires
        0 <= g < 5,
        0 <= a1 < 5,
        0 <= a2 < 5,
        n >= 1,
    ensures
        concat(crate::jsettler::trade_table::one_for_two_entry(g, a1, a2).map_values(rows_of_change(n as int)))
            == crate::player::picker_player::one_for_two_entry(g, a1, a2, PlayerId(0), n, true).map_values(
            features_of(n as int),
        ),
{
    if g != a1 && g != a2 {
        let offer = bump(zero_bundle(), g);
        let want = bump(bump(zero_bundle(), a1), a2);
        lemma_partner_rows(offer, want, n);
        assert(want.minus(offer) == nudge(nudge(nudge(no_change(), g, -1), a1, 1), a2, 1));
        assert(crate::jsettler::trade_table::one_for_two_entry(g, a1, a2).map_values(rows_of_change(n as int))
            =~= seq![change_rows(want.minus(offer), n as int)]);
        lemma_concat_single(change_rows(want.minus(offer), n as int));
    } else {
        assert(crate::jsettler::trade_table::one_for_two_entry(g, a1, a2).map_values(rows_of_change(n as int))
            =~= Seq::<Seq<Seq<i8>>>::empty());
        assert(crate::player::picker_player::one_for_two_entry(g, a1, a2, PlayerId(0), n, true).map_values(
            features_of(n as int),
        ) =~= Seq::<Seq<i8>>::empty());
    }
}

proof fn lemma_one_for_one_block(g: int, n: u8)
    requires
        0 <= g < 5,
        n >= 1,
    ensures
        concat(crate::jsettler::trade_table::one_for_one_block(g).map_values(rows_of_change(n as int)))
            == crate::player::picker_player::one_for_one_block(g, PlayerId(0), n, true).map_values(features_of(n as int)),
{
    let rc = rows_of_change(n as int);
    let f = features_of(n as int);
    let x = Seq::new(5, |a: int| crate::jsettler::trade_table::one_for_one_pair(g, a));
    let y = Seq::new(5, |a: int| crate::player::picker_player::one_for_one_pair(g, a, PlayerId(0), n, true));
    lemma_concat_flat_map(x, rc);
    lemma_concat_map(y, f);
    let xm = x.map_values(|s: Seq<Resources>| concat(s.map_values(rc)));
    let ym = y.map_values(|s: Seq<Action>| s.map_values(f));
    assert forall|a: int| 0 <= a < 5 implies #[trigger] xm[a] == ym[a] by {
        lemma_one_for_one_entry(g, a, n);
    }
    assert(xm =~= ym);
}

proof fn lemma_two_for_one_g2(g1: int, g2: int, n: u8)
    requires
        0 <= g1 < 5,
        0 <= g2 < 5,
        n >= 1,
    ensures
        concat(crate::jsettler::trade_table::two_for_one_g2(g1, g2).map_values(rows_of_change(n as int)))
            == crate::player::picker_player::two_for_one_g2(g1, g2, PlayerId(0), n, true).map_values(features_of(n as int)),
{
    let rc = rows_of_change(n as int);
    let f = features_of(n as int);
    let x = Seq::new(5, |k: int| crate::jsettler::trade_table::two_for_one_entry(g1, g2, k));
    let y = Seq::new(5, |k: int| crate::player::picker_player::two_for_one_entry(g1, g2, k, PlayerId(0), n, true));
    lemma_concat_flat_map(x, rc);
    lemma_concat_map(y, f);
    let xm = x.map_values(|s: Seq<Resources>| concat(s.map_values(rc)));
    let ym = y.map_values(|s: Seq<Action>| s.map_values(f));
    assert forall|k: int| 0 <= k < 5 implies #[trigger] xm[k] == ym[k] by {
        lemma_two_for_one_entry(g1, g2, k, n);
    }
    assert(xm =~= ym);
}

proof fn lemma_two_for_one_block(g1: int, n: u8)
    requires
        0 <= g1 < 5,
        n >= 1,
    ensures
        concat(crate::jsettler::trade_table::two_for_one_block(g1).map_values(rows_of_change(n as int)))
            == crate::player::picker_player::two_for_one_block(g1, PlayerId(0), n, true).map_values(features_of(n as int)),
{
    let rc = rows_of_change(n as int);
    let f = features_of(n as int);
    let x = Seq::new((5 - g1) as nat, |k: int| crate::jsettler::trade_table::two_for_one_g2(g1, g1 + k));
    let y = Seq::new((5 - g1) as nat, |k: int| crate::player::picker_player::two_for_one_g2(g1, g1 + k, PlayerId(0), n, true));
    lemma_concat_flat_map(x, rc);
    lemma_concat_map(y, f);
    let xm = x.map_values(|s: Seq<Resources>| concat(s.map_values(rc)));
    let ym = y.map_values(|s: Seq<Action>| s.map_values(f));
    assert forall|k: int| 0 <= k < (5 - g1) as nat implies #[trigger] xm[k] == ym[k] by {
        lemma_two_for_one_g2(g1, g1 + k, n);
    }
    assert(xm =~= ym);
}

proof fn lemma_one_for_two_a1(g: int, a1: int, n: u8)
    requires
        0 <= g < 5,
        0 <= a1 < 5,
        n >= 1,
    ensures
        concat(crate::jsettler::trade_table::one_for_two_a1(g, a1).map_values(rows_of_change(n as int)))
            == crate::player::picker_player::one_for_two_a1(g, a1, PlayerId(0), n, true).map_values(features_of(n as int)),
{
    let rc = rows_of_change(n as int);
    let f = features_of(n as int);
    let x = Seq::new((5 - a1) as nat, |k: int| crate::jsettler::trade_table::one_for_two_entry(g, a1, a1 + k));
    let y = Seq::new((5 - a1) as nat, |k: int| crate::player::picker_player::one_for_two_entry(g, a1, a1 + k, PlayerId(0), n, true));
    lemma_concat_flat_map(x, rc);
    lemma_concat_map(y, f);
    let xm = x.map_values(|s: Seq<Resources>| concat(s.map_values(rc)));
    let ym = y.map_values(|s: Seq<Action>| s.map_values(f));
    assert forall|k: int| 0 <= k < (5 - a1) as nat implies #[trigger] xm[k] == ym[k] by {
        lemma_one_for_two_entry(g, a1, a1 + k, n);
    }
    assert(xm =~= ym);
}

proof fn lemma_one_for_two_block(g: int, n: u8)
    requires
        0 <= g < 5,
        n >= 1,
    ensures
        concat(crate::jsettler::trade_table::one_for_two_block(g).map_values(rows_of_change(n as int)))
            == crate::player::picker_player::one_for_two_block(g, PlayerId(0), n, true).map_values(features_of(n as int)),
{
    let rc = rows_of_change(n as int);
    let f = features_of(n as int);
    let x = Seq::new(5, |k: int| crate::jsettler::trade_table::one_for_two_a1(g, k));
    let y = Seq::new(5, |k: int| crate::player::picker_player::one_for_two_a1(g, k, PlayerId(0), n, true));
    lemma_concat_flat_map(x, rc);
    lemma_concat_map(y, f);
    let xm = x.map_values(|s: Seq<Resources>| concat(s.map_values(rc)));
    let ym = y.map_values(|s: Seq<Action>| s.map_values(f));
    assert forall|k: int| 0 <= k < 5 implies #[trigger] xm[k] == ym[k] by {
        lemma_one_for_two_a1(g, k, n);
    }
    assert(xm =~= ym);
}

proof fn lemma_one_for_one_all(n: u8)
    requires
        n >= 1,
    ensures
        concat(concat(Seq::new(5, |g: int| crate::jsettler::trade_table::one_for_one_block(g))).map_values(rows_of_change(n as int)))
            == crate::player::picker_player::one_for_one_actions(PlayerId(0), n, true).map_values(features_of(n as int)),
{
    let rc = rows_of_change(n as int);
    let f = features_of(n as int);
    let x = Seq::new(5, |k: int| crate::jsettler::trade_table::one_for_one_block(k));
    let y = Seq::new(5, |k: int| crate::player::picker_player::one_for_one_block(k, PlayerId(0), n, true));
    lemma_concat_flat_map(x, rc);
    lemma_concat_map(y, f);
    let xm = x.map_values(|s: Seq<Resources>| concat(s.map_values(rc)));
    let ym = y.map_values(|s: Seq<Action>| s.map_values(f));
    assert forall|k: int| 0 <= k < 5 implies #[trigger] xm[k] == ym[k] by {
        lemma_one_for_one_block(k, n);
    }
    assert(xm =~= ym);
}

proof fn lemma_two_for_one_all(n: u8)
    requires
        n >= 1,
    ensures
        concat(concat(Seq::new(5, |g: int| crate::jsettler::trade_table::two_for_one_block(g))).map_values(rows_of_change(n as int)))
            == crate::player::picker_player::two_for_one_actions(PlayerId(0), n, true).map_values(features_of(n as int)),
{
    let rc = rows_of_change(n as int);
    let f = features_of(n as int);
    let x = Seq::new(5, |k: int| crate::jsettler::trade_table::two_for_one_block(k));
    let y = Seq::new(5, |k: int| crate::player::picker_player::two_for_one_block(k, PlayerId(0), n, true));
    lemma_concat_flat_map(x, rc);
    lemma_concat_map(y, f);
    let xm = x.map_values(|s: Seq<Resources>| concat(s.map_values(rc)));
    let ym = y.map_values(|s: Seq<Action>| s.map_values(f));
    assert forall|k: int| 0 <= k < 5 implies #[trigger] xm[k] == ym[k] by {
        lemma_two_for_one_block(k, n);
    }
    assert(xm =~= ym);
}

proof fn lemma_one_for_two_all(n: u8)
    requires
        n >= 1,
    ensures
        concat(concat(Seq::new(5, |g: int| crate::jsettler::trade_table::one_for_two_block(g))).map_values(rows_of_change(n as int)))
            == crate::player::picker_player::one_for_two_actions(PlayerId(0), n, true).map_values(features_of(n as int)),
{
    let rc = rows_of_change(n as int);
    let f = features_of(n as int);
    let x = Seq::new(5, |k: int| crate::jsettler::trade_table::one_for_two_block(k));
    let y = Seq::new(5, |k: int| crate::player::picker_player::one_for_two_block(k, PlayerId(0), n, true));
    lemma_concat_flat_map(x, rc);
    lemma_concat_map(y, f);
    let xm = x.map_values(|s: Seq<Resources>| concat(s.map_values(rc)));
    let ym = y.map_values(|s: Seq<Action>| s.map_values(f));
    assert forall|k: int| 0 <= k < 5 implies #[trigger] xm[k] == ym[k] by {
        lemma_one_for_two_block(k, n);
    }
    assert(xm =~= ym);
}

/// Row k of the trade table for `n` players describes the k-th trade
/// proposal of player 0 in the list of every action: the change the trade
/// makes for the proposer and the opponent it is made to.
pub proof fn lemma_trade_table_matches_trade_actions(n: u8)
    requires
        n >= 1,
    ensures
        trade_table_rows(n as int) == trade_actions(PlayerId(0), n, true).map_values(features_of(n as int)),
{
    let rc = rows_of_change(n as int);
    let f = features_of(n as int);
    let a = concat(Seq::new(5, |g: int| crate::jsettler::trade_table::one_for_one_block(g)));
    let b = concat(Seq::new(5, |g: int| crate::jsettler::trade_table::two_for_one_block(g)));
    let c = concat(Seq::new(5, |g: int| crate::jsettler::trade_table::one_for_two_block(g)));
    assert(trade_changes() == a + b + c);
    assert(Seq::new(trade_changes().len(), |i: int| change_rows(trade_changes()[i], n as int))
        =~= trade_changes().map_values(rc));
    assert(trade_changes().map_values(rc) =~= a.map_values(rc) + b.map_values(rc) + c.map_values(rc));
    lemma_concat_append(a.map_values(rc) + b.map_values(rc), c.map_values(rc));
    lemma_concat_append(a.map_values(rc), b.map_values(rc));
    let aa = crate::player::picker_player::one_for_one_actions(PlayerId(0), n, true);
    let bb = crate::player::picker_player::two_for_one_actions(PlayerId(0), n, true);
    let cc = crate::player::picker_player::one_for_two_actions(PlayerId(0), n, true);
    assert(trade_actions(PlayerId(0), n, true) == aa + bb + cc);
    assert((aa + bb + cc).map_values(f) =~= aa.map_values(f) + bb.map_values(f) + cc.map_values(f));
    lemma_one_for_one_all(n);
    lemma_two_for_one_all(n);
    lemma_one_for_two_all(n);
}

/// In a concatenation of blocks of `m` items each, item `j` is item `j % m`
/// of block `j / m`.
proof fn lemma_concat_uniform<A>(s: Seq<Seq<A>>, m: int)
    requires
        m > 0,
        forall|i: int| 0 <= i < s.len() ==> #[trigger] s[i].len() == m,
    ensures
        concat(s).len() == s.len() * m,
        forall|j: int| 0 <= j < s.len() * m ==> #[trigger] concat(s)[j] == s[j / m][j % m],
    decreases s.len(),
{
    if s.len() > 0 {
        let t = s.drop_last();
        assert forall|i: int| 0 <= i < t.len() implies #[trigger] t[i].len() == m by {
            assert(t[i] == s[i]);
        }
        lemma_concat_uniform(t, m);
        let tl = t.len() as int;
        assert(s.len() * m == tl * m + m) by (nonlinear_arith)
            requires
                s.len() == tl + 1,
        ;
        assert forall|j: int| 0 <= j < s.len() * m implies #[trigger] concat(s)[j] == s[j / m][j % m] by {
            lemma_fundamental_div_mod(j, m);
            let q = j / m;
            let r = j % m;
            assert(0 <= r < m);
            if j < tl * m {
                assert(q < tl) by (nonlinear_arith)
                    requires
                        j == m * q + r,
                        0 <= r,
                        j < tl * m,
                        m > 0,
                ;
                assert(concat(t)[j] == t[q][r]);
                assert(t[q] == s[q]);
            } else {
                lemma_fundamental_div_mod_converse(j, m, tl, j - tl * m);
            }
        }
    }
}

/// The `j`-th trade proposal of player 0, for `n` players, goes to the
/// opponent `j % (n - 1) + 1`: the proposals of each trade go to every
/// opponent in turn.
pub proof fn lemma_trade_partners(n: u8, j: int)
    requires
        n >= 2,
        0 <= j < trade_actions(PlayerId(0), n, true).len(),
    ensures
        trade_actions(PlayerId(0), n, true).len() == trade_changes().len() * (n - 1),
        trade_actions(PlayerId(0), n, true)[j] matches Action::TradePlayers { partner, .. } && partner == PlayerId(
            (j % (n - 1) + 1) as u8,
        ),
{
    let m = (n - 1) as int;
    let acts = trade_actions(PlayerId(0), n, true);
    let f = features_of(n as int);
    lemma_trade_table_matches_trade_actions(n);
    let blocks = Seq::new(trade_changes().len(), |i: int| change_rows(trade_changes()[i], n as int));
    assert forall|i: int| 0 <= i < blocks.len() implies #[trigger] blocks[i].len() == m by {}
    lemma_concat_uniform(blocks, m);
    assert(trade_table_rows(n as int) == concat(blocks));
    let rows = concat(blocks);
    assert(acts.map_values(f).len() == acts.len());
    assert(rows.len() == acts.len());
    lemma_fundamental_div_mod(j, m);
    let q = j / m;
    let p2 = j % m;
    assert(0 <= q < blocks.len()) by (nonlinear_arith)
        requires
            j == m * q + p2,
            0 <= p2 < m,
            0 <= j < blocks.len() * m,
    ;
    let c = trade_changes()[q];
    assert(rows[j] == feature_row(c, n as int, p2));
    assert(acts.map_values(f)[j] == trade_features(acts[j], n as int));
    let row = feature_row(c, n as int, p2);
    assert(row.len() == 5 + 2 * m);
    assert(row[5 + p2] == 1i8);
    match acts[j] {
        Action::TradePlayers { offer, want, partner } => {
            let c2 = want.minus(offer);
            let p1 = partner.0 - 1;
            let row2 = feature_row(c2, n as int, p1);
            assert(row2 == row);
            assert(row2[0] == row[0] && row2[1] == row[1] && row2[2] == row[2] && row2[3] == row[3]
                && row2[4] == row[4]);
            assert(c2.sum() == c.sum());
            if p1 != p2 {
                assert(row2[5 + p2] == row[5 + p2]);
                assert(p1 == -1 && p2 == m - 1);
                assert(row2[4 + 2 * m] == row[4 + 2 * m]);
                assert(false);
            }
        },
        _ => {
            assert(trade_features(acts[j], n as int).len() == 0);
            assert(row.len() > 0);
            assert(false);
        },
    }
}

/// The length of a concatenation of at most five blocks.
proof fn lemma_len_upto5<A>(n: nat, f: spec_fn(int) -> Seq<A>)
    requires
        n <= 5,
    ensures
        concat(Seq::new(n, f)).len() == (if n > 0 { f(0).len() as int } else { 0 }) + (if n > 1 {
            f(1).len() as int
        } else {
            0
        }) + (if n > 2 { f(2).len() as int } else { 0 }) + (if n > 3 { f(3).len() as int } else { 0 }) + (if n
            > 4 {
            f(4).len() as int
        } else {
            0
        }),
    decreases n,
{
    if n == 0 {
        assert(Seq::new(0, f) =~= Seq::<Seq<A>>::empty());
    } else {
        lemma_len_upto5((n - 1) as nat, f);
        lemma_concat_new_succ((n - 1) as nat, f);
    }
}

/// A concatenation of blocks of `m` items each holds `m` items per block.
proof fn lemma_concat_uniform_len<A>(s: Seq<Seq<A>>, m: int)
    requires
        m >= 0,
        forall|i: int| 0 <= i < s.len() ==> #[trigger] s[i].len() == m,
    ensures
        concat(s).len() == s.len() * m,
    decreases s.len(),
{
    if s.len() > 0 {
        let t = s.drop_last();
        assert forall|i: int| 0 <= i < t.len() implies #[trigger] t[i].len() == m by {
            assert(t[i] == s[i]);
        }
        lemma_concat_uniform_len(t, m);
        assert(s.len() * m == t.len() * m + m) by (nonlinear_arith)
            requires
                s.len() == t.len() + 1,
        ;
    }
}

/// The trade table for `n` players has 120 rows for each other player, one
/// per trade and opponent, each of `5 + 2 * (n - 1)` features.
pub proof fn lemma_trade_table_size(n: int)
    requires
        n >= 1,
    ensures
        trade_changes().len() == 120,
        trade_table_rows(n).len() == 120 * (n - 1),
        forall|i: int| 0 <= i < trade_table_rows(n).len() ==> #[trigger] trade_table_rows(n)[i].len() == 5 + 2 * (n
            - 1),
{
    lemma_len_upto5(5, |a: int| crate::jsettler::trade_table::one_for_one_pair(0, a));
    lemma_len_upto5(5, |a: int| crate::jsettler::trade_table::one_for_one_pair(1, a));
    lemma_len_upto5(5, |a: int| crate::jsettler::trade_table::one_for_one_pair(2, a));
    lemma_len_upto5(5, |a: int| crate::jsettler::trade_table::one_for_one_pair(3, a));
    lemma_len_upto5(5, |a: int| crate::jsettler::trade_table::one_for_one_pair(4, a));
    lemma_len_upto5(5, |g: int| crate::jsettler::trade_table::one_for_one_block(g));
    lemma_len_upto5(5, |a: int| crate::jsettler::trade_table::two_for_one_entry(0, 0, a));
    lemma_len_upto5(5, |a: int| crate::jsettler::trade_table::two_for_one_entry(0, 1, a));
    lemma_len_upto5(5, |a: int| crate::jsettler::trade_table::two_for_one_entry(0, 2, a));
    lemma_len_upto5(5, |a: int| crate::jsettler::trade_table::two_for_one_entry(0, 3, a));
    lemma_len_upto5(5, |a: int| crate::jsettler::trade_table::two_for_one_entry(0, 4, a));
    lemma_len_upto5(5, |k: int| crate::jsettler::trade_table::two_for_one_g2(0, 0 + k));
    lemma_len_upto5(5, |a: int| crate::jsettler::trade_table::two_for_one_entry(1, 1, a));
    lemma_len_upto5(5, |a: int| crate::jsettler::trade_table::two_for_one_entry(1, 2, a));
    lemma_len_upto5(5, |a: int| crate::jsettler::trade_table::two_for_one_entry(1, 3, a));
    lemma_len_upto5(5, |a: int| crate::jsettler::trade_table::two_for_one_entry(1, 4, a));
    lemma_len_upto5(4, |k: int| crate::jsettler::trade_table::two_for_one_g2(1, 1 + k));
    lemma_len_upto5(5, |a: int| crate::jsettler::trade_table::two_for_one_entry(2, 2, a));
    lemma_len_upto5(5, |a: int| crate::jsettler::trade_table::two_for_one_entry(2, 3, a));
    lemma_len_upto5(5, |a: int| crate::jsettler::trade_table::two_for_one_entry(2, 4, a));
    lemma_len_upto5(3, |k: int| crate::jsettler::trade_table::two_for_one_g2(2, 2 + k));
    lemma_len_upto5(5, |a: int| crate::jsettler::trade_table::two_for_one_entry(3, 3, a));
    lemma_len_upto5(5, |a: int| crate::jsettler::trade_table::two_for_one_entry(3, 4, a));
    lemma_len_upto5(2, |k: int| crate::jsettler::trade_table::two_for_one_g2(3, 3 + k));
    lemma_len_upto5(5, |a: int| crate::jsettler::trade_table::two_for_one_entry(4, 4, a));
    lemma_len_upto5(1, |k: int| crate::jsettler::trade_table::two_for_one_g2(4, 4 + k));
    lemma_len_upto5(5, |g: int| crate::jsettler::trade_table::two_for_one_block(g));
    lemma_len_upto5(5, |k: int| crate::jsettler::trade_table::one_for_two_entry(0, 0, 0 + k));
    lemma_len_upto5(4, |k: int| crate::jsettler::trade_table::one_for_two_entry(0, 1, 1 + k));
    lemma_len_upto5(3, |k: int| crate::jsettler::trade_table::one_for_two_entry(0, 2, 2 + k));
    lemma_len_upto5(2, |k: int| crate::jsettler::trade_table::one_for_two_entry(0, 3, 3 + k));
    lemma_len_upto5(1, |k: int| crate::jsettler::trade_table::one_for_two_entry(0, 4, 4 + k));
    lemma_len_upto5(5, |a1: int| crate::jsettler::trade_table::one_for_two_a1(0, a1));
    lemma_len_upto5(5, |k: int| crate::jsettler::trade_table::one_for_two_entry(1, 0, 0 + k));
    lemma_len_upto5(4, |k: int| crate::jsettler::trade_table::one_for_two_entry(1, 1, 1 + k));
    lemma_len_upto5(3, |k: int| crate::jsettler::trade_table::one_for_two_entry(1, 2, 2 + k));
    lemma_len_upto5(2, |k: int| crate::jsettler::trade_table::one_for_two_entry(1, 3, 3 + k));
    lemma_len_upto5(1, |k: int| crate::jsettler::trade_table::one_for_two_entry(1, 4, 4 + k));
    lemma_len_upto5(5, |a1: int| crate::jsettler::trade_table::one_for_two_a1(1, a1));
    lemma_len_upto5(5, |k: int| crate::jsettler::trade_table::one_for_two_entry(2, 0, 0 + k));
    lemma_len_upto5(4, |k: int| crate::jsettler::trade_table::one_for_two_entry(2, 1, 1 + k));
    lemma_len_upto5(3, |k: int| crate::jsettler::trade_table::one_for_two_entry(2, 2, 2 + k));
    lemma_len_upto5(2, |k: int| crate::jsettler::trade_table::one_for_two_entry(2, 3, 3 + k));
    lemma_len_upto5(1, |k: int| crate::jsettler::trade_table::one_for_two_entry(2, 4, 4 + k));
    lemma_len_upto5(5, |a1: int| crate::jsettler::trade_table::one_for_two_a1(2, a1));
    lemma_len_upto5(5, |k: int| crate::jsettler::trade_table::one_for_two_entry(3, 0, 0 + k));
    lemma_len_upto5(4, |k: int| crate::jsettler::trade_table::one_for_two_entry(3, 1, 1 + k));
    lemma_len_upto5(3, |k: int| crate::jsettler::trade_table::one_for_two_entry(3, 2, 2 + k));
    lemma_len_upto5(2, |k: int| crate::jsettler::trade_table::one_for_two_entry(3, 3, 3 + k));
    lemma_len_upto5(1, |k: int| crate::jsettler::trade_table::one_for_two_entry(3, 4, 4 + k));
    lemma_len_upto5(5, |a1: int| crate::jsettler::trade_table::one_for_two_a1(3, a1));
    lemma_len_upto5(5, |k: int| crate::jsettler::trade_table::one_for_two_entry(4, 0, 0 + k));
    lemma_len_upto5(4, |k: int| crate::jsettler::trade_table::one_for_two_entry(4, 1, 1 + k));
    lemma_len_upto5(3, |k: int| crate::jsettler::trade_table::one_for_two_entry(4, 2, 2 + k));
    lemma_len_upto5(2, |k: int| crate::jsettler::trade_table::one_for_two_entry(4, 3, 3 + k));
    lemma_len_upto5(1, |k: int| crate::jsettler::trade_table::one_for_two_entry(4, 4, 4 + k));
    lemma_len_upto5(5, |a1: int| crate::jsettler::trade_table::one_for_two_a1(4, a1));
    lemma_len_upto5(5, |g: int| crate::jsettler::trade_table::one_for_two_block(g));
    assert(trade_changes().len() == 120);
    let blocks = Seq::new(trade_changes().len(), |i: int| change_rows(trade_changes()[i], n));
    assert forall|i: int| 0 <= i < blocks.len() implies #[trigger] blocks[i].len() == n - 1 by {}
    lemma_concat_uniform_len(blocks, n - 1);
    assert(trade_table_rows(n) == concat(blocks));
    let lens = |row: Seq<i8>| row.len() == 5 + 2 * (n - 1);
    assert forall|i: int, j: int| 0 <= i < blocks.len() && 0 <= j < blocks[i].len() implies lens(#[trigger] blocks[i][j]) by {}
    crate::utils::seqs::lemma_concat_forall(blocks, lens);
}

} // verus!
