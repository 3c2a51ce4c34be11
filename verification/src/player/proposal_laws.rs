use vstd::prelude::*;
use crate::board::coord::Coord;
use crate::game::action::Action;
use crate::player::picker_laws::{bundle_action, lemma_grid_bundles};
use crate::player::picker_player::{
    all_possible_actions, bank_actions, bank_block, bank_pair, building_actions, grid, monopole_actions,
    one_for_one_actions, one_for_one_block, one_for_one_pair, one_for_two_a1, one_for_two_actions,
    one_for_two_block, one_for_two_entry, partner_block, partner_entry, road_actions, thief_actions, thief_block,
    trade_actions, two_for_one_actions, two_for_one_block, two_for_one_entry, two_for_one_g2, bump, zero_bundle,
};
use crate::state::PlayerId;
use crate::utils::resource::{Resource, Resources};
use crate::utils::seqs::{concat, lemma_concat_forall};

verus! {

/// The action proposes a trade to another player.
pub open spec fn is_proposal(a: Action) -> bool {
    a is TradePlayers
}

proof fn lemma_all_kind(s: Seq<Seq<Action>>, want: bool)
    requires
        forall|i: int, j: int| 0 <= i < s.len() && 0 <= j < s[i].len() ==> is_proposal(#[trigger] s[i][j]) == want,
    ensures
        forall|k: int| 0 <= k < concat(s).len() ==> is_proposal(#[trigger] concat(s)[k]) == want,
{
    let p = |a: Action| is_proposal(a) == want;
    assert forall|i: int, j: int| 0 <= i < s.len() && 0 <= j < s[i].len() implies p(#[trigger] s[i][j]) by {}
    lemma_concat_forall(s, p);
}

proof fn lemma_add_kind(a: Seq<Action>, b: Seq<Action>, want: bool)
    requires
        forall|k: int| 0 <= k < a.len() ==> is_proposal(#[trigger] a[k]) == want,
        forall|k: int| 0 <= k < b.len() ==> is_proposal(#[trigger] b[k]) == want,
    ensures
        forall|k: int| 0 <= k < (a + b).len() ==> is_proposal(#[trigger] (a + b)[k]) == want,
{
    assert forall|k: int| 0 <= k < (a + b).len() implies is_proposal(#[trigger] (a + b)[k]) == want by {
        if k < a.len() {
            assert((a + b)[k] == a[k]);
        } else {
            assert((a + b)[k] == b[k - a.len()]);
        }
    }
}

proof fn lemma_partner_block_kind(offer: Resources, want: Resources, player: PlayerId, player_count: u8, for_actor: bool)
    ensures
        forall|k: int| 0 <= k < partner_block(offer, want, player, player_count, for_actor).len() ==> is_proposal(#[trigger] partner_block(offer, want, player, player_count, for_actor)[k]) == true,
{
    let s = Seq::new(player_count as nat, |i: int| partner_entry(offer, want, player, player_count, for_actor, i));
    assert forall|i: int, j: int| 0 <= i < s.len() && 0 <= j < s[i].len() implies is_proposal(#[trigger] s[i][j]) == true by {
        assert(s[i] == partner_entry(offer, want, player, player_count, for_actor, i));
    }
    lemma_all_kind(s, true);
}

proof fn lemma_one_for_one_block_kind(g: int, player: PlayerId, player_count: u8, for_actor: bool)
    ensures
        forall|k: int| 0 <= k < one_for_one_block(g, player, player_count, for_actor).len() ==> is_proposal(#[trigger] one_for_one_block(g, player, player_count, for_actor)[k]) == true,
{
    let s = Seq::new(5, |i: int| one_for_one_pair(g, i, player, player_count, for_actor));
    assert forall|i: int, j: int| 0 <= i < s.len() && 0 <= j < s[i].len() implies is_proposal(#[trigger] s[i][j]) == true by {
        assert(s[i] == one_for_one_pair(g, i, player, player_count, for_actor));
        lemma_partner_block_kind(Resources::one(Resource::at_index(g), 1), Resources::one(Resource::at_index(i), 1), player, player_count, for_actor);
    }
    lemma_all_kind(s, true);
}

proof fn lemma_one_for_one_kind(player: PlayerId, player_count: u8, for_actor: bool)
    ensures
        forall|k: int| 0 <= k < one_for_one_actions(player, player_count, for_actor).len() ==> is_proposal(#[trigger] one_for_one_actions(player, player_count, for_actor)[k]) == true,
{
    let s = Seq::new(5, |i: int| one_for_one_block(i, player, player_count, for_actor));
    assert forall|i: int, j: int| 0 <= i < s.len() && 0 <= j < s[i].len() implies is_proposal(#[trigger] s[i][j]) == true by {
        assert(s[i] == one_for_one_block(i, player, player_count, for_actor));
        lemma_one_for_one_block_kind(i, player, player_count, for_actor);
    }
    lemma_all_kind(s, true);
}

proof fn lemma_two_for_one_g2_kind(g1: int, g2: int, player: PlayerId, player_count: u8, for_actor: bool)
    ensures
        forall|k: int| 0 <= k < two_for_one_g2(g1, g2, player, player_count, for_actor).len() ==> is_proposal(#[trigger] two_for_one_g2(g1, g2, player, player_count, for_actor)[k]) == true,
{
    let s = Seq::new(5, |i: int| two_for_one_entry(g1, g2, i, player, player_count, for_actor));
    assert forall|i: int, j: int| 0 <= i < s.len() && 0 <= j < s[i].len() implies is_proposal(#[trigger] s[i][j]) == true by {
        assert(s[i] == two_for_one_entry(g1, g2, i, player, player_count, for_actor));
        lemma_partner_block_kind(bump(bump(zero_bundle(), g1), g2), bump(zero_bundle(), i), player, player_count, for_actor);
    }
    lemma_all_kind(s, true);
}

proof fn lemma_two_for_one_block_kind(g1: int, player: PlayerId, player_count: u8, for_actor: bool)
    ensures
        forall|k: int| 0 <= k < two_for_one_block(g1, player, player_count, for_actor).len() ==> is_proposal(#[trigger] two_for_one_block(g1, player, player_count, for_actor)[k]) == true,
{
    let s = Seq::new((5 - g1) as nat, |i: int| two_for_one_g2(g1, g1 + i, player, player_count, for_actor));
    assert forall|i: int, j: int| 0 <= i < s.len() && 0 <= j < s[i].len() implies is_proposal(#[trigger] s[i][j]) == true by {
        assert(s[i] == two_for_one_g2(g1, g1 + i, player, player_count, for_actor));
        lemma_two_for_one_g2_kind(g1, g1 + i, player, player_count, for_actor);
    }
    lemma_all_kind(s, true);
}

proof fn lemma_two_for_one_kind(player: PlayerId, player_count: u8, for_actor: bool)
    ensures
        forall|k: int| 0 <= k < two_for_one_actions(player, player_count, for_actor).len() ==> is_proposal(#[trigger] two_for_one_actions(player, player_count, for_actor)[k]) == true,
{
    let s = Seq::new(5, |i: int| two_for_one_block(i, player, player_count, for_actor));
    assert forall|i: int, j: int| 0 <= i < s.len() && 0 <= j < s[i].len() implies is_proposal(#[trigger] s[i][j]) == true by {
        assert(s[i] == two_for_one_block(i, player, player_count, for_actor));
        lemma_two_for_one_block_kind(i, player, player_count, for_actor);
    }
    lemma_all_kind(s, true);
}

proof fn lemma_one_for_two_a1_kind(g: int, a1: int, player: PlayerId, player_count: u8, for_actor: bool)
    ensures
        forall|k: int| 0 <= k < one_for_two_a1(g, a1, player, player_count, for_actor).len() ==> is_proposal(#[trigger] one_for_two_a1(g, a1, player, player_count, for_actor)[k]) == true,
{
    let s = Seq::new((5 - a1) as nat, |i: int| one_for_two_entry(g, a1, a1 + i, player, player_count, for_actor));
    assert forall|i: int, j: int| 0 <= i < s.len() && 0 <= j < s[i].len() implies is_proposal(#[trigger] s[i][j]) == true by {
        assert(s[i] == one_for_two_entry(g, a1, a1 + i, player, player_count, for_actor));
        lemma_partner_block_kind(bump(zero_bundle(), g), bump(bump(zero_bundle(), a1), a1 + i), player, player_count, for_actor);
    }
    lemma_all_kind(s, true);
}

proof fn lemma_one_for_two_block_kind(g: int, player: PlayerId, player_count: u8, for_actor: bool)
    ensures
        forall|k: int| 0 <= k < one_for_two_block(g, player, player_count, for_actor).len() ==> is_proposal(#[trigger] one_for_two_block(g, player, player_count, for_actor)[k]) == true,
{
    let s = Seq::new(5, |i: int| one_for_two_a1(g, i, player, player_count, for_actor));
    assert forall|i: int, j: int| 0 <= i < s.len() && 0 <= j < s[i].len() implies is_proposal(#[trigger] s[i][j]) == true by {
        assert(s[i] == one_for_two_a1(g, i, player, player_count, for_actor));
        lemma_one_for_two_a1_kind(g, i, player, player_count, for_actor);
    }
    lemma_all_kind(s, true);
}

proof fn lemma_one_for_two_kind(player: PlayerId, player_count: u8, for_actor: bool)
    ensures
        forall|k: int| 0 <= k < one_for_two_actions(player, player_count, for_actor).len() ==> is_proposal(#[trigger] one_for_two_actions(player, player_count, for_actor)[k]) == true,
{
    let s = Seq::new(5, |i: int| one_for_two_block(i, player, player_count, for_actor));
    assert forall|i: int, j: int| 0 <= i < s.len() && 0 <= j < s[i].len() implies is_proposal(#[trigger] s[i][j]) == true by {
        assert(s[i] == one_for_two_block(i, player, player_count, for_actor));
        lemma_one_for_two_block_kind(i, player, player_count, for_actor);
    }
    lemma_all_kind(s, true);
}

proof fn lemma_thief_kind(hexes: Seq<Coord>, player: PlayerId, player_count: u8)
    ensures
        forall|k: int| 0 <= k < thief_actions(hexes, player, player_count).len() ==> is_proposal(#[trigger] thief_actions(hexes, player, player_count)[k]) == false,
{
    let s = Seq::new(hexes.len(), |i: int| thief_block(hexes[i], player, player_count));
    assert forall|i: int, j: int| 0 <= i < s.len() && 0 <= j < s[i].len() implies is_proposal(#[trigger] s[i][j]) == false by {
        assert(s[i] == thief_block(hexes[i], player, player_count));
    }
    lemma_all_kind(s, false);
}

proof fn lemma_building_kind(intersections: Seq<Coord>)
    ensures
        forall|k: int| 0 <= k < building_actions(intersections).len() ==> is_proposal(#[trigger] building_actions(intersections)[k]) == false,
{
    let s = Seq::new(intersections.len(), |i: int| seq![Action::BuildSettlement { intersection: intersections[i] }, Action::BuildCity { intersection: intersections[i] }]);
    assert forall|i: int, j: int| 0 <= i < s.len() && 0 <= j < s[i].len() implies is_proposal(#[trigger] s[i][j]) == false by {
        assert(s[i] == seq![Action::BuildSettlement { intersection: intersections[i] }, Action::BuildCity { intersection: intersections[i] }]);
    }
    lemma_all_kind(s, false);
}

proof fn lemma_bank_block_kind(given: int)
    ensures
        forall|k: int| 0 <= k < bank_block(given).len() ==> is_proposal(#[trigger] bank_block(given)[k]) == false,
{
    let s = Seq::new(5, |i: int| bank_pair(given, i));
    assert forall|i: int, j: int| 0 <= i < s.len() && 0 <= j < s[i].len() implies is_proposal(#[trigger] s[i][j]) == false by {
        assert(s[i] == bank_pair(given, i));
    }
    lemma_all_kind(s, false);
}

proof fn lemma_bank_kind()
    ensures
        forall|k: int| 0 <= k < bank_actions().len() ==> is_proposal(#[trigger] bank_actions()[k]) == false,
{
    let s = Seq::new(5, |i: int| bank_block(i));
    assert forall|i: int, j: int| 0 <= i < s.len() && 0 <= j < s[i].len() implies is_proposal(#[trigger] s[i][j]) == false by {
        assert(s[i] == bank_block(i));
        lemma_bank_block_kind(i);
    }
    lemma_all_kind(s, false);
}

proof fn lemma_grid_kind(n: int, t: int, keep: bool)
    requires
        1 <= n,
        n - 1 <= t <= 100,
    ensures
        forall|k: int| 0 <= k < grid(n, t, keep).len() ==> is_proposal(#[trigger] grid(n, t, keep)[k]) == false,
{
    lemma_grid_bundles(n, t, keep);
    assert forall|k: int| 0 <= k < grid(n, t, keep).len() implies is_proposal(#[trigger] grid(n, t, keep)[k]) == false by {
        assert(bundle_action(grid(n, t, keep)[k], t, keep));
    }
}

/// No action listed without trades proposes a trade, and every action in
/// the trade block does.
pub proof fn lemma_proposals_only_in_trade_block(
    player: PlayerId,
    player_count: u8,
    hexes: Seq<Coord>,
    paths: Seq<Coord>,
    intersections: Seq<Coord>,
    for_actor: bool,
)
    ensures
        ({
            let without = all_possible_actions(player, player_count, hexes, paths, intersections, false, for_actor);
            forall|k: int| 0 <= k < without.len() ==> !is_proposal(#[trigger] without[k])
        }),
        forall|k: int| 0 <= k < trade_actions(player, player_count, for_actor).len() ==> is_proposal(
            #[trigger] trade_actions(player, player_count, for_actor)[k],
        ),
{
    lemma_one_for_one_kind(player, player_count, for_actor);
    lemma_two_for_one_kind(player, player_count, for_actor);
    lemma_one_for_two_kind(player, player_count, for_actor);
    let t1 = one_for_one_actions(player, player_count, for_actor);
    let t2 = two_for_one_actions(player, player_count, for_actor);
    let t3 = one_for_two_actions(player, player_count, for_actor);
    lemma_add_kind(t1, t2, true);
    lemma_add_kind(t1 + t2, t3, true);
    lemma_thief_kind(hexes, player, player_count);
    lemma_building_kind(intersections);
    lemma_bank_kind();
    lemma_grid_kind(3, 2, false);
    lemma_grid_kind(5, 4, true);
    let p0 = thief_actions(hexes, player, player_count);
    let p1 = road_actions(paths);
    let p2 = building_actions(intersections);
    let p3 = seq![Action::RollDice, Action::EndTurn];
    let p4 = bank_actions();
    let p5 = seq![Action::BuyDevelopment, Action::DevelopmentKnight, Action::DevelopmentRoadBuilding];
    let p6 = grid(3, 2, false);
    let p7 = monopole_actions();
    let p8 = grid(5, 4, true);
    let p9 = seq![Action::TradePlayersAccept, Action::TradePlayersDecline];
    let p10 = Seq::<Action>::empty();
    assert forall|k: int| 0 <= k < p1.len() implies is_proposal(#[trigger] p1[k]) == false by {}
    assert forall|k: int| 0 <= k < p3.len() implies is_proposal(#[trigger] p3[k]) == false by {}
    assert forall|k: int| 0 <= k < p5.len() implies is_proposal(#[trigger] p5[k]) == false by {}
    assert forall|k: int| 0 <= k < p7.len() implies is_proposal(#[trigger] p7[k]) == false by {}
    assert forall|k: int| 0 <= k < p9.len() implies is_proposal(#[trigger] p9[k]) == false by {}
    lemma_add_kind(p0, p1, false);
    lemma_add_kind(p0 + p1, p2, false);
    lemma_add_kind(p0 + p1 + p2, p3, false);
    lemma_add_kind(p0 + p1 + p2 + p3, p4, false);
    lemma_add_kind(p0 + p1 + p2 + p3 + p4, p5, false);
    lemma_add_kind(p0 + p1 + p2 + p3 + p4 + p5, p6, false);
    lemma_add_kind(p0 + p1 + p2 + p3 + p4 + p5 + p6, p7, false);
    lemma_add_kind(p0 + p1 + p2 + p3 + p4 + p5 + p6 + p7, p8, false);
    lemma_add_kind(p0 + p1 + p2 + p3 + p4 + p5 + p6 + p7 + p8, p9, false);
    lemma_add_kind(p0 + p1 + p2 + p3 + p4 + p5 + p6 + p7 + p8 + p9, p10, false);
    assert(all_possible_actions(player, player_count, hexes, paths, intersections, false, for_actor)
        == p0 + p1 + p2 + p3 + p4 + p5 + p6 + p7 + p8 + p9 + p10);
}

} // verus!
