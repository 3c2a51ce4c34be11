use vstd::prelude::*;
use crate::game::action::Action;
use crate::game::phase::Phase;
use crate::jsettler::discard::{
    after_draws, discard_at_random, half_toward_zero, nonnegative, total_fits, valid_draws, within,
};
use crate::jsettler::tables::{
    edge_js_number, hex_js_number, intersection_js_number, resource_js_number, rust_coord_to_js_edge,
    rust_coord_to_js_hex, rust_coord_to_js_intersection, rust_res_to_js_res,
};
use crate::jsettler::updates::{js_hand, js_list};
use crate::state::player_hand::PlayerHand;
use crate::state::PlayerId;
use crate::utils::resource::{Resource, Resources};

verus! {

/// An action as the JSettlers client is told it: the number of its kind, two
/// parameters (`-1` where there is none) and two lists of resource counts in
/// the order of the JSettlers resource numbers.
pub struct JsAction {
    pub action_type: i32,
    pub param0: i32,
    pub param1: i32,
    pub res0: Vec<i32>,
    pub res1: Vec<i32>,
}

/// Five zero counts.
pub open spec fn no_counts() -> Seq<i32> {
    Seq::new(5, |i: int| 0i32)
}

/// The counts with `value` for one resource and zero for the others.
pub open spec fn one_count(resource: Resource, value: int) -> Seq<i32> {
    Seq::new(5, |i: int| if i == resource_js_number(resource) - 1 { value as i32 } else { 0i32 })
}

/// The number of cards a hand holds.
pub open spec fn hand_size(hands: Seq<PlayerHand>, p: PlayerId) -> int {
    hands[p.0 as int].resources.sum()
}

/// The first owner of a building around the hex, in the order of `owners`,
/// who is not `me` and holds cards, or `-1` when there is none.
pub open spec fn other_victim(owners: Seq<Option<PlayerId>>, me: PlayerId, hands: Seq<PlayerHand>) -> int
    decreases owners.len(),
{
    if owners.len() == 0 {
        -1
    } else {
        match owners[0] {
            Some(o) => if o != me && hand_size(hands, o) > 0 {
                o.0 as int
            } else {
                other_victim(owners.skip(1), me, hands)
            },
            None => other_victim(owners.skip(1), me, hands),
        }
    }
}

/// Whom JSettlers is told the thief robs: the victim, when it is another
/// player who holds cards; when the victim holds none, the first other owner
/// around the hex who does, since JSettlers refuses a victim without cards.
pub open spec fn thief_target(
    victim: PlayerId,
    me: PlayerId,
    hands: Seq<PlayerHand>,
    owners: Seq<Option<PlayerId>>,
) -> int {
    if hand_size(hands, victim) == 0 {
        other_victim(owners, me, hands)
    } else if victim != me {
        victim.0 as int
    } else {
        -1
    }
}

/// The hand can be added up, and owners and victim are players of `hands`.
pub open spec fn hands_readable(hands: Seq<PlayerHand>, owners: Seq<Option<PlayerId>>, victim: PlayerId) -> bool {
    &&& victim.0 < hands.len()
    &&& total_fits(hands[victim.0 as int].resources)
    &&& forall|i: int| 0 <= i < owners.len() ==> (#[trigger] owners[i] matches Some(o) ==> o.0 < hands.len()
        && total_fits(hands[o.0 as int].resources))
}

/// The inputs that `decode_action` can tell JSettlers about: coordinates on
/// the board and players of `hands`, and a keep that leaves a hand of a size
/// that can be added up.
pub open spec fn decodable(
    action: Action,
    me: PlayerId,
    hands: Seq<PlayerHand>,
    owners: Seq<Option<PlayerId>>,
) -> bool {
    match action {
        Action::MoveThief { hex, victim } => hex_js_number(hex.x, hex.y) is Some && hands_readable(
            hands,
            owners,
            victim,
        ),
        Action::BuildRoad { path } => edge_js_number(path.x, path.y) is Some,
        Action::BuildSettlement { intersection } => intersection_js_number(intersection.x, intersection.y) is Some,
        Action::BuildCity { intersection } => intersection_js_number(intersection.x, intersection.y) is Some,
        Action::TradeBank { .. } => me.0 < hands.len(),
        Action::Keep { resources } => {
            &&& me.0 < hands.len()
            &&& total_fits(hands[me.0 as int].resources)
            &&& hands[me.0 as int].resources.sub_fits(resources)
            &&& total_fits(hands[me.0 as int].resources.minus(resources))
            &&& (half_toward_zero(hands[me.0 as int].resources.sum()) >= 0
                || hands[me.0 as int].resources.minus(resources).sum() <= half_toward_zero(
                hands[me.0 as int].resources.sum(),
            ))
        },
        _ => true,
    }
}

/// What is discarded with a keep: the hand less what is kept, with cards put
/// back, each at a place drawn among the cards still counted, until at most
/// half of the hand (rounded toward zero) goes; every count only goes down,
/// and when nothing kept is missing from the hand exactly that half goes, or
/// all that was not kept if it is less.
pub open spec fn keep_discards(hand: Resources, kept: Resources, discards: Seq<i32>) -> bool {
    let wanted = hand.minus(kept);
    let half = half_toward_zero(hand.sum());
    exists|d: Resources|
        {
            &&& discards == js_list(d)
            &&& exists|draws: Seq<int>| valid_draws(wanted.sum(), half, draws) && d == after_draws(wanted, draws)
            &&& within(d, wanted)
            &&& nonnegative(wanted) ==> nonnegative(d) && d.sum() == (if wanted.sum() > half {
                half
            } else {
                wanted.sum()
            })
        }
}

/// The parameters JSettlers is told for an action other than a keep.
pub open spec fn js_params(
    action: Action,
    me: PlayerId,
    phase: Phase,
    hands: Seq<PlayerHand>,
    owners: Seq<Option<PlayerId>>,
) -> (int, int, Seq<i32>, Seq<i32>) {
    match action {
        Action::MoveThief { hex, victim } => (
            hex_js_number(hex.x, hex.y)->0 as int,
            thief_target(victim, me, hands, owners),
            no_counts(),
            no_counts(),
        ),
        Action::BuildRoad { path } => (edge_js_number(path.x, path.y)->0 as int, -1, no_counts(), no_counts()),
        Action::BuildSettlement { intersection } => (
            intersection_js_number(intersection.x, intersection.y)->0 as int,
            -1,
            no_counts(),
            no_counts(),
        ),
        Action::BuildCity { intersection } => (
            intersection_js_number(intersection.x, intersection.y)->0 as int,
            -1,
            no_counts(),
            no_counts(),
        ),
        Action::TradeBank { given, asked } => (
            -1,
            -1,
            one_count(given, hands[me.0 as int].harbor.rate_of(given) as int),
            one_count(asked, 1),
        ),
        Action::TradePlayers { offer, want, partner } => (partner.0 as int, -1, js_list(offer), js_list(want)),
        Action::TradePlayersAccept => (
            match phase {
                Phase::Turn { player, .. } => player.0 as int,
                _ => -1,
            },
            -1,
            no_counts(),
            no_counts(),
        ),
        Action::DevelopmentYearOfPlenty { resources } => (-1, -1, js_list(resources), no_counts()),
        Action::DevelopmentMonopole { resource } => (resource_js_number(resource) as int, -1, no_counts(), no_counts()),
        _ => (-1, -1, no_counts(), no_counts()),
    }
}

fn counts_none() -> (r: Vec<i32>)
    ensures
        r@ == no_counts(),
{
    let mut v: Vec<i32> = Vec::new();
    let mut i: usize = 0;
    while i < 5
        invariant
            i <= 5,
            v@ == Seq::new(i as nat, |k: int| 0i32),
        decreases 5 - i,
    {
        v.push(0);
        proof {
            assert(v@ =~= Seq::new((i + 1) as nat, |k: int| 0i32));
        }
        i = i + 1;
    }
    v
}

fn counts_one(resource: Resource, value: i32) -> (r: Vec<i32>)
    ensures
        r@ == one_count(resource, value as int),
{
    let mut v = counts_none();
    let idx = rust_res_to_js_res(resource) - 1;
    v.set(idx as usize, value);
    proof {
        assert(v@ =~= one_count(resource, value as int));
    }
    v
}

/// The first owner in `owners` from place `start` on who is not `me` and
/// holds cards, or `-1`.
fn find_other_victim(owners: &Vec<Option<PlayerId>>, start: usize, me: PlayerId, hands: &Vec<PlayerHand>) -> (r: i32)
    requires
        start <= owners.len(),
        forall|i: int| 0 <= i < owners.len() ==> (#[trigger] owners@[i] matches Some(o) ==> o.0 < hands.len()
            && total_fits(hands@[o.0 as int].resources)),
    ensures
        r == other_victim(owners@.skip(start as int), me, hands@),
        -1 <= r < 256,
    decreases owners.len() - start,
{
    if start == owners.len() {
        return -1;
    }
    let ghost rest = owners@.skip(start as int);
    proof {
        assert(rest[0] == owners@[start as int]);
        assert(rest.skip(1) =~= owners@.skip(start + 1));
    }
    match owners[start] {
        Some(o) => {
            if o != me && hands[o.0 as usize].resources.total() > 0 {
                o.0 as i32
            } else {
                find_other_victim(owners, start + 1, me, hands)
            }
        },
        None => find_other_victim(owners, start + 1, me, hands),
    }
}

/// How an action is told to the JSettlers client. `me` is the player the
/// client plays, `phase` the phase of the game, `hands` the hands of the
/// players by seat, and `owners` the owners of the buildings on the
/// intersections around the thief's new hex, if any, in the order in which
/// the board lists them. A keep is told as the cards discarded, which are
/// partly drawn at random when the kept bundle would not discard half of the
/// hand exactly.
pub fn decode_action(
    action: Action,
    me: PlayerId,
    phase: &Phase,
    hands: &Vec<PlayerHand>,
    owners: &Vec<Option<PlayerId>>,
) -> (r: JsAction)
    requires
        decodable(action, me, hands@, owners@),
    ensures
        r.action_type == action.category_of().index_of(),
        !(action is Keep) ==> (r.param0 as int, r.param1 as int, r.res0@, r.res1@) == js_params(
            action,
            me,
            *phase,
            hands@,
            owners@,
        ),
        action matches Action::Keep { resources } ==> {
            &&& r.param0 == -1
            &&& r.param1 == -1
            &&& r.res1@ == no_counts()
            &&& keep_discards(hands@[me.0 as int].resources, resources, r.res0@)
        },
{
    let action_type = action.category().to_i32();
    let mut param0: i32 = -1;
    let mut param1: i32 = -1;
    let mut res0 = counts_none();
    let mut res1 = counts_none();
    match action {
        Action::MoveThief { hex, victim } => {
            param0 = rust_coord_to_js_hex(&hex);
            if victim != me {
                param1 = victim.0 as i32;
            }
            if hands[victim.0 as usize].resources.total() == 0 {
                proof {
                    assert(owners@.skip(0) =~= owners@);
                }
                param1 = find_other_victim(owners, 0, me, hands);
            }
        },
        Action::BuildRoad { path } => {
            param0 = rust_coord_to_js_edge(&path);
        },
        Action::BuildSettlement { intersection } => {
            param0 = rust_coord_to_js_intersection(&intersection);
        },
        Action::BuildCity { intersection } => {
            param0 = rust_coord_to_js_intersection(&intersection);
        },
        Action::TradeBank { given, asked } => {
            let rate = hands[me.0 as usize].harbor.rate(given);
            res0 = counts_one(given, rate as i32);
            res1 = counts_one(asked, 1);
        },
        Action::TradePlayers { offer, want, partner } => {
            res0 = js_hand(&offer);
            res1 = js_hand(&want);
            param0 = partner.0 as i32;
        },
        Action::TradePlayersAccept => {
            if let Phase::Turn { player, turn_phase: _, development_phase: _ } = phase {
                param0 = player.0 as i32;
            }
        },
        Action::DevelopmentYearOfPlenty { resources } => {
            res0 = js_hand(&resources);
        },
        Action::DevelopmentMonopole { resource } => {
            param0 = rust_res_to_js_res(resource);
        },
        Action::Keep { resources: kept } => {
            let current = hands[me.0 as usize].resources;
            let total = current.total();
            let should_discard: i8 = if total >= 0 {
                total / 2
            } else {
                0 - ((0 - total as i16) / 2) as i8
            };
            let discarded = current - kept;
            let d = discard_at_random(discarded, should_discard);
            res0 = js_hand(&d);
        },
        _ => {},
    }
    JsAction { action_type, param0, param1, res0, res1 }
}

} // verus!
