use vstd::prelude::*;
use crate::board::coord::Coord;
use crate::game::action::Action;
use crate::player::picker_player::{all_possible_actions, grid, grid_b, grid_entry, grid_l, grid_o, trade_actions};
use crate::utils::resource::Resources;
use crate::state::PlayerId;
use crate::utils::seqs::{lemma_concat_contains, lemma_concat_forall};

verus! {

/// The action keeps or takes a bundle of `size` cards, none of them counted
/// below zero: a keep after a seven when `keep` holds, a year of plenty
/// otherwise.
pub open spec fn bundle_action(a: Action, size: int, keep: bool) -> bool {
    match a {
        Action::Keep { resources } => keep && resources.brick >= 0 && resources.lumber >= 0
            && resources.ore >= 0 && resources.grain >= 0 && resources.wool >= 0
            && resources.sum() == size,
        Action::DevelopmentYearOfPlenty { resources } => !keep && resources.brick >= 0
            && resources.lumber >= 0 && resources.ore >= 0 && resources.grain >= 0
            && resources.wool >= 0 && resources.sum() == size,
        _ => false,
    }
}

proof fn lemma_grid_l(n: int, t: int, keep: bool, b: int, l: int)
    requires
        1 <= n,
        n - 1 <= t <= 100,
        0 <= b,
        0 <= l,
        b + l < n,
    ensures
        forall|k: int| 0 <= k < grid_l(n, t, keep, b, l).len() ==> bundle_action(
            #[trigger] grid_l(n, t, keep, b, l)[k],
            t,
            keep,
        ),
{
    let p = |a: Action| bundle_action(a, t, keep);
    let s = Seq::new((n - (b + l)) as nat, |o: int| grid_o(n, t, keep, b, l, o));
    assert forall|i: int, j: int| 0 <= i < s.len() && 0 <= j < s[i].len() implies p(#[trigger] s[i][j]) by {
        assert(s[i] == grid_o(n, t, keep, b, l, i));
    }
    lemma_concat_forall(s, p);
}

proof fn lemma_grid_b(n: int, t: int, keep: bool, b: int)
    requires
        1 <= n,
        n - 1 <= t <= 100,
        0 <= b < n,
    ensures
        forall|k: int| 0 <= k < grid_b(n, t, keep, b).len() ==> bundle_action(
            #[trigger] grid_b(n, t, keep, b)[k],
            t,
            keep,
        ),
{
    let p = |a: Action| bundle_action(a, t, keep);
    let s = Seq::new((n - b) as nat, |l: int| grid_l(n, t, keep, b, l));
    assert forall|i: int, j: int| 0 <= i < s.len() && 0 <= j < s[i].len() implies p(#[trigger] s[i][j]) by {
        assert(s[i] == grid_l(n, t, keep, b, i));
        lemma_grid_l(n, t, keep, b, i);
    }
    lemma_concat_forall(s, p);
}

/// Every bundle listed for a year of plenty (`grid(3, 2, false)`) or for
/// keeping after a seven (`grid(5, 4, true)`) counts no resource below zero
/// and holds exactly the number of cards `t` that the listing is made for.
pub proof fn lemma_grid_bundles(n: int, t: int, keep: bool)
    requires
        1 <= n,
        n - 1 <= t <= 100,
    ensures
        forall|k: int| 0 <= k < grid(n, t, keep).len() ==> bundle_action(#[trigger] grid(n, t, keep)[k], t, keep),
{
    let p = |a: Action| bundle_action(a, t, keep);
    let s = Seq::new(n as nat, |b: int| grid_b(n, t, keep, b));
    assert forall|i: int, j: int| 0 <= i < s.len() && 0 <= j < s[i].len() implies p(#[trigger] s[i][j]) by {
        assert(s[i] == grid_b(n, t, keep, i));
        lemma_grid_b(n, t, keep, i);
    }
    lemma_concat_forall(s, p);
}

/// The actions listed without trades are the start of those listed with
/// trades, and the trade proposals make up the rest.
pub proof fn lemma_trades_come_last(
    player: PlayerId,
    player_count: u8,
    hexes: Seq<Coord>,
    paths: Seq<Coord>,
    intersections: Seq<Coord>,
    for_actor: bool,
)
    ensures
        ({
            let without = all_possible_actions(player, player_count, hexes, paths, intersections, false, for_actor);
            let with = all_possible_actions(player, player_count, hexes, paths, intersections, true, for_actor);
            &&& with.take(without.len() as int) == without
            &&& with.skip(without.len() as int) == trade_actions(player, player_count, for_actor)
        }),
{
    let without = all_possible_actions(player, player_count, hexes, paths, intersections, false, for_actor);
    let with = all_possible_actions(player, player_count, hexes, paths, intersections, true, for_actor);
    assert(with.take(without.len() as int) =~= without);
    assert(with.skip(without.len() as int) =~= trade_actions(player, player_count, for_actor));
}

/// Every bundle of `t` cards with no count below zero is listed: for a
/// year of plenty (`grid(3, 2, false)`) every pick of two cards, for a keep
/// after a seven (`grid(5, 4, true)`) every choice of four.
pub proof fn lemma_grid_complete(t: int, keep: bool, r: Resources)
    requires
        0 <= t <= 100,
        r.brick >= 0,
        r.lumber >= 0,
        r.ore >= 0,
        r.grain >= 0,
        r.wool >= 0,
        r.sum() == t,
    ensures
        grid(t + 1, t, keep).contains(
            grid_entry(keep, r.brick as int, r.lumber as int, r.ore as int, r.grain as int, r.wool as int),
        ),
{
    let n = t + 1;
    let (b, l, o, g) = (r.brick as int, r.lumber as int, r.ore as int, r.grain as int);
    let x = grid_entry(keep, b, l, o, g, r.wool as int);
    let so = grid_o(n, t, keep, b, l, o);
    assert(so[g] == x);
    assert(so.contains(x));
    let sl = Seq::new((n - (b + l)) as nat, |o: int| grid_o(n, t, keep, b, l, o));
    assert(sl[o] == so);
    lemma_concat_contains(sl, o, x);
    assert(grid_l(n, t, keep, b, l).contains(x));
    let sb = Seq::new((n - b) as nat, |l: int| grid_l(n, t, keep, b, l));
    assert(sb[l] == grid_l(n, t, keep, b, l));
    lemma_concat_contains(sb, l, x);
    assert(grid_b(n, t, keep, b).contains(x));
    let sg = Seq::new(n as nat, |b: int| grid_b(n, t, keep, b));
    assert(sg[b] == grid_b(n, t, keep, b));
    lemma_concat_contains(sg, b, x);
}

} // verus!
