use vstd::prelude::*;
use crate::jsettler::hand::{resolve_development_cards, resolve_hand, settled_cards, settled_resources};
use crate::jsettler::tables::{
    js_card_to_development_card, js_development_card, js_res_to_rust_res, js_resource, resource_js_number,
    rust_res_to_js_res,
};
use crate::state::player_hand::PlayerHand;
use crate::utils::development_card::{DevelopmentCard, DevelopmentCards};
use crate::utils::resource::{fits_i8, Resource, Resources};
use crate::utils::{Harbor, Hex, LandHex};

verus! {

/// The bundle that a JSettlers list of counts stands for: the count of a
/// resource stands at its JSettlers number less one, and is read as a byte.
pub open spec fn js_bundle(values: Seq<i32>) -> Resources {
    Resources {
        brick: values[0] as i8,
        ore: values[1] as i8,
        wool: values[2] as i8,
        grain: values[3] as i8,
        lumber: values[4] as i8,
    }
}

/// No count is the one byte value that cannot be negated.
pub open spec fn negatable(r: Resources) -> bool {
    r.neg_fits()
}

/// The bundle given by a JSettlers list of counts.
pub fn js_resources(values: &Vec<i32>) -> (r: Resources)
    requires
        values.len() >= 5,
    ensures
        r == js_bundle(values@),
{
    let mut r = Resources::zero();
    let mut js: i32 = 1;
    while js <= 5
        invariant
            1 <= js <= 6,
            values.len() >= 5,
            forall|k: i32| 1 <= k < js ==> #[trigger] js_resource(k) is Some && r.get(js_resource(k)->0) == values@[k - 1] as i8,
            forall|k: i32| js <= k <= 5 ==> #[trigger] js_resource(k) is Some && r.get(js_resource(k)->0) == 0,
        decreases 6 - js,
    {
        let resource = js_res_to_rust_res(js);
        let value = values[(js - 1) as usize] as i8;
        r.set(resource, value);
        js = js + 1;
    }
    proof {
        assert(js_resource(1) is Some && js_resource(2) is Some && js_resource(3) is Some);
        assert(js_resource(4) is Some && js_resource(5) is Some);
    }
    r
}

/// A hand as a JSettlers list: the count of a resource at its JSettlers
/// number less one.
pub open spec fn js_list(r: Resources) -> Seq<i32> {
    seq![r.brick as i32, r.ore as i32, r.wool as i32, r.grain as i32, r.lumber as i32]
}

/// The counts of a hand, listed in the order of the JSettlers numbers.
pub fn js_hand(resources: &Resources) -> (r: Vec<i32>)
    ensures
        r@ == js_list(*resources),
{
    let mut res_map: Vec<i32> = Vec::new();
    let mut i: usize = 0;
    while i < 5
        invariant
            i <= 5,
            res_map@.len() == i,
            forall|k: int| 0 <= k < i ==> res_map@[k] == 0,
        decreases 5 - i,
    {
        res_map.push(0);
        i = i + 1;
    }
    let mut k: usize = 0;
    while k < 5
        invariant
            k <= 5,
            res_map@.len() == 5,
            forall|j: int| 0 <= j < 5 ==> #[trigger] res_map@[j] == (if exists|m: int| 0 <= m < k && resource_js_number(Resource::at_index(m)) - 1 == j {
                js_list(*resources)[j]
            } else {
                0
            }),
        decreases 5 - k,
    {
        let resource = Resource::from_index(k);
        let idx = rust_res_to_js_res(resource) - 1;
        res_map.set(idx as usize, resources[resource] as i32);
        proof {
            assert(resource_js_number(Resource::at_index(k as int)) - 1 == idx);
        }
        k = k + 1;
    }
    proof {
        assert(resource_js_number(Resource::at_index(0)) - 1 == 0);
        assert(resource_js_number(Resource::at_index(2)) - 1 == 1);
        assert(resource_js_number(Resource::at_index(4)) - 1 == 2);
        assert(resource_js_number(Resource::at_index(3)) - 1 == 3);
        assert(resource_js_number(Resource::at_index(1)) - 1 == 4);
        assert(res_map@ =~= js_list(*resources));
    }
    res_map
}

/// A hand written as a JSettlers list reads back as the same hand.
pub proof fn lemma_js_list_round_trip(r: Resources)
    ensures
        js_bundle(js_list(r)) == r,
{
}

/// A hand after a JSettlers resource message: 100 sets the counts, 101 adds
/// them and 102 takes them away.
pub open spec fn js_update(hand: Resources, action: i32, changes: Seq<i32>) -> Resources {
    if action == 100 {
        js_bundle(changes)
    } else if action == 101 {
        hand.plus(js_bundle(changes))
    } else {
        hand.minus(js_bundle(changes))
    }
}

/// Sets, adds or takes away the counts of a JSettlers resource message, then
/// resolves the hand.
pub fn update_resources(hand: &mut Resources, action: i32, changes: &Vec<i32>)
    requires
        changes.len() >= 5,
        action == 100 || action == 101 || action == 102,
        action == 101 ==> old(hand).add_fits(js_bundle(changes@)),
        action == 102 ==> old(hand).sub_fits(js_bundle(changes@)),
        negatable(js_update(*old(hand), action, changes@)),
    ensures
        *final(hand) == settled_resources(js_update(*old(hand), action, changes@)),
{
    let bundle = js_resources(changes);
    if action == 100 {
        *hand = bundle;
    } else if action == 101 {
        hand.add_assign(bundle);
    } else {
        hand.sub_assign(bundle);
    }
    resolve_hand(hand);
}

/// What a JSettlers discard message takes away: the listed counts, and on top
/// of them as many bricks as it lists cards of unknown kind.
pub open spec fn js_discard(changes: Seq<i32>) -> Resources {
    let listed = js_bundle(changes);
    Resources { brick: (listed.brick + changes[5] as i8) as i8, ..listed }
}

/// Takes the cards of a JSettlers discard message from a hand, then resolves it.
pub fn execute_discard(hand: &mut Resources, changes: &Vec<i32>)
    requires
        changes.len() >= 6,
        fits_i8(changes@[0] as i8 + changes@[5] as i8),
        old(hand).sub_fits(js_discard(changes@)),
        negatable(old(hand).minus(js_discard(changes@))),
    ensures
        *final(hand) == settled_resources(old(hand).minus(js_discard(changes@))),
{
    let mut discard = js_resources(changes);
    discard.brick = discard.brick + changes[5] as i8;
    hand.sub_assign(discard);
    resolve_hand(hand);
}

/// What a trade hands to the player who proposed it: what was requested less
/// what was offered.
pub open spec fn trade_difference(offer: Seq<i32>, request: Seq<i32>) -> Resources {
    js_bundle(request).minus(js_bundle(offer))
}

/// The requested bundle less the offered one, of a JSettlers trade message.
pub fn js_trade_difference(offer: &Vec<i32>, request: &Vec<i32>) -> (r: Resources)
    requires
        offer.len() >= 5,
        request.len() >= 5,
        js_bundle(request@).sub_fits(js_bundle(offer@)),
    ensures
        r == trade_difference(offer@, request@),
{
    let offered = js_resources(offer);
    let requested = js_resources(request);
    requested - offered
}

/// A trade between two players: the proposing player gets what was requested
/// and gives what was offered, the partner the other way round; both hands
/// are resolved.
pub fn execute_trade(player: &mut Resources, partner: &mut Resources, offer: &Vec<i32>, request: &Vec<i32>)
    requires
        offer.len() >= 5,
        request.len() >= 5,
        js_bundle(request@).sub_fits(js_bundle(offer@)),
        old(player).add_fits(trade_difference(offer@, request@)),
        old(partner).sub_fits(trade_difference(offer@, request@)),
        negatable(old(player).plus(trade_difference(offer@, request@))),
        negatable(old(partner).minus(trade_difference(offer@, request@))),
    ensures
        *final(player) == settled_resources(old(player).plus(trade_difference(offer@, request@))),
        *final(partner) == settled_resources(old(partner).minus(trade_difference(offer@, request@))),
{
    let diff = js_trade_difference(offer, request);
    player.add_assign(diff);
    partner.sub_assign(diff);
    resolve_hand(player);
    resolve_hand(partner);
}

/// A trade with the bank: the player gets what was requested and gives what
/// was offered, and the hand is resolved. JSettlers keeps no count of the
/// bank, so none is changed.
pub fn execute_bank_trade(player: &mut Resources, offer: &Vec<i32>, request: &Vec<i32>)
    requires
        offer.len() >= 5,
        request.len() >= 5,
        js_bundle(request@).sub_fits(js_bundle(offer@)),
        old(player).add_fits(trade_difference(offer@, request@)),
        negatable(old(player).plus(trade_difference(offer@, request@))),
    ensures
        *final(player) == settled_resources(old(player).plus(trade_difference(offer@, request@))),
{
    let diff = js_trade_difference(offer, request);
    player.add_assign(diff);
    resolve_hand(player);
}

/// The resource a robbery takes: the one JSettlers names, or a brick where
/// it does not say which (number 6).
pub open spec fn robbed_resource(res_type: i32) -> Resource {
    if res_type == 6 {
        Resource::Brick
    } else {
        js_resource(res_type)->0
    }
}

/// The thief takes one card of a resource from the victim, whose hand is
/// then resolved.
pub fn execute_robbery(thief: &mut Resources, victim: &mut Resources, res_type: i32)
    requires
        res_type == 6 || js_resource(res_type) is Some,
        old(victim).get(robbed_resource(res_type)) > i8::MIN + 1,
        old(thief).get(robbed_resource(res_type)) < i8::MAX,
        negatable(*old(victim)),
    ensures
        ({
            let r = robbed_resource(res_type);
            &&& *final(victim) == settled_resources(
                old(victim).with(r, (old(victim).get(r) - 1) as i8),
            )
            &&& *final(thief) == old(thief).with(r, (old(thief).get(r) + 1) as i8)
        }),
{
    let resource = if res_type != 6 {
        js_res_to_rust_res(res_type)
    } else {
        Resource::Brick
    };
    let taken = victim[resource] - 1;
    victim.set(resource, taken);
    let given = thief[resource] + 1;
    thief.set(resource, given);
    resolve_hand(victim);
}

/// Development cards with one count moved by `by`.
pub open spec fn moved(cards: DevelopmentCards, card: DevelopmentCard, by: int) -> DevelopmentCards {
    cards.with(card, (cards.get(card) + by) as i8)
}

/// The new cards of a hand after a JSettlers card message: a drawn card (0)
/// and a card added as new (2) join them.
pub open spec fn new_cards_after(new_cards: DevelopmentCards, action: i32, card: i32) -> DevelopmentCards {
    match js_development_card(card) {
        Some(c) => if action == 0 || action == 2 {
            moved(new_cards, c, 1)
        } else {
            new_cards
        },
        None => new_cards,
    }
}

/// The playable cards of a hand after a JSettlers card message: a played card
/// (1) leaves them and a card added as old (3) joins them.
pub open spec fn old_cards_after(cards: DevelopmentCards, action: i32, card: i32) -> DevelopmentCards {
    match js_development_card(card) {
        Some(c) => if action == 1 {
            moved(cards, c, -1)
        } else if action == 3 {
            moved(cards, c, 1)
        } else {
            cards
        },
        None => cards,
    }
}

/// The cards left to draw after a JSettlers card message: a drawn card (0)
/// leaves them.
pub open spec fn stock_after(stock: DevelopmentCards, action: i32, card: i32) -> DevelopmentCards {
    match js_development_card(card) {
        Some(c) => if action == 0 {
            moved(stock, c, -1)
        } else {
            stock
        },
        None => stock,
    }
}

/// Draws, plays or adds a development card as a JSettlers card message says,
/// then resolves the playable cards of the hand and the cards left to draw.
/// A message with an unknown card or action changes no count.
pub fn update_develop_card(hand: &mut PlayerHand, stock: &mut DevelopmentCards, action: i32, card: i32)
    requires
        js_development_card(card) matches Some(c) ==> {
            &&& (action == 0 || action == 2) ==> old(hand).new_development_cards.get(c) < i8::MAX
            &&& action == 0 ==> old(stock).get(c) > i8::MIN
            &&& action == 1 ==> old(hand).development_cards.get(c) > i8::MIN
            &&& action == 3 ==> old(hand).development_cards.get(c) < i8::MAX
        },
    ensures
        *final(hand) == (PlayerHand {
            development_cards: settled_cards(old_cards_after(old(hand).development_cards, action, card)),
            new_development_cards: new_cards_after(old(hand).new_development_cards, action, card),
            ..*old(hand)
        }),
        *final(stock) == settled_cards(stock_after(*old(stock), action, card)),
{
    let dev_card = js_card_to_development_card(card);
    if let Some(c) = dev_card {
        if action == 0 {
            let drawn = hand.new_development_cards[c] + 1;
            hand.new_development_cards.set(c, drawn);
            let left = stock[c] - 1;
            stock.set(c, left);
        } else if action == 1 {
            let played = hand.development_cards[c] - 1;
            hand.development_cards.set(c, played);
        } else if action == 2 {
            let added = hand.new_development_cards[c] + 1;
            hand.new_development_cards.set(c, added);
        } else if action == 3 {
            let added = hand.development_cards[c] + 1;
            hand.development_cards.set(c, added);
        }
    }
    resolve_development_cards(&mut hand.development_cards);
    resolve_development_cards(stock);
}

/// A hand after a JSettlers message about one resource: 100 sets its count
/// to `amount`, 101 adds `amount` and 102 takes it away, read as a byte.
pub open spec fn js_resource_update(hand: Resources, action: i32, resource: Resource, amount: i32) -> Resources {
    let v = amount as i8;
    if action == 100 {
        hand.with(resource, v)
    } else if action == 101 {
        hand.with(resource, (hand.get(resource) + v) as i8)
    } else {
        hand.with(resource, (hand.get(resource) - v) as i8)
    }
}

/// Sets, adds or takes away an amount of the resource that JSettlers
/// numbers `element`. The hand is not resolved.
pub fn update_player_resource(hand: &mut Resources, action: i32, element: i32, amount: i32)
    requires
        js_resource(element) is Some,
        action == 100 || action == 101 || action == 102,
        action == 101 ==> fits_i8(old(hand).get(js_resource(element)->0) + amount as i8),
        action == 102 ==> fits_i8(old(hand).get(js_resource(element)->0) - amount as i8),
    ensures
        *final(hand) == js_resource_update(*old(hand), action, js_resource(element)->0, amount),
{
    let resource = js_res_to_rust_res(element);
    let v = amount as i8;
    if action == 100 {
        hand.set(resource, v);
    } else if action == 101 {
        let total = hand[resource] + v;
        hand.set(resource, total);
    } else {
        let total = hand[resource] - v;
        hand.set(resource, total);
    }
}

/// At the end of a turn, the cards bought in it become playable: they join
/// the playable cards and none is new any more.
pub fn mature_development_cards(hand: &mut PlayerHand)
    requires
        old(hand).development_cards.add_fits(old(hand).new_development_cards),
    ensures
        *final(hand) == (PlayerHand {
            development_cards: old(hand).development_cards.plus(old(hand).new_development_cards),
            new_development_cards: DevelopmentCards::spec_zero(),
            ..*old(hand)
        }),
{
    let new_cards = hand.new_development_cards;
    hand.development_cards.add_assign(new_cards);
    hand.new_development_cards.clear();
}

/// A road was placed: one road piece fewer.
pub fn record_road(hand: &mut PlayerHand)
    requires
        old(hand).road_pieces > 0,
    ensures
        *final(hand) == (PlayerHand { road_pieces: (old(hand).road_pieces - 1) as u8, ..*old(hand) }),
{
    hand.road_pieces = hand.road_pieces - 1;
}

/// A settlement was placed next to `harbor`: one settlement piece fewer, one
/// more victory point, and the harbor is reached.
pub fn record_settlement(hand: &mut PlayerHand, harbor: Harbor)
    requires
        old(hand).settlement_pieces > 0,
        old(hand).building_vp < u8::MAX,
    ensures
        final(hand).settlement_pieces == old(hand).settlement_pieces - 1,
        final(hand).building_vp == old(hand).building_vp + 1,
        harbor == Harbor::NoHarbor ==> final(hand).harbor == old(hand).harbor,
        harbor != Harbor::NoHarbor ==> final(hand).harbor.harbors@ == old(hand).harbor.harbors@.update(harbor.slot(), true),
        *final(hand) == (PlayerHand {
            settlement_pieces: final(hand).settlement_pieces,
            building_vp: final(hand).building_vp,
            harbor: final(hand).harbor,
            ..*old(hand)
        }),
{
    hand.settlement_pieces = hand.settlement_pieces - 1;
    hand.building_vp = hand.building_vp + 1;
    hand.harbor.add(harbor);
}

/// A settlement became a city: its settlement piece comes back, one city
/// piece fewer, one more victory point.
pub fn record_city(hand: &mut PlayerHand)
    requires
        old(hand).city_pieces > 0,
        old(hand).settlement_pieces < u8::MAX,
        old(hand).building_vp < u8::MAX,
    ensures
        *final(hand) == (PlayerHand {
            settlement_pieces: (old(hand).settlement_pieces + 1) as u8,
            city_pieces: (old(hand).city_pieces - 1) as u8,
            building_vp: (old(hand).building_vp + 1) as u8,
            ..*old(hand)
        }),
{
    hand.settlement_pieces = hand.settlement_pieces + 1;
    hand.city_pieces = hand.city_pieces - 1;
    hand.building_vp = hand.building_vp + 1;
}

/// A knight was played: one more knight in the player's army.
pub fn record_knight(hand: &mut PlayerHand)
    requires
        old(hand).knights < u8::MAX,
    ensures
        *final(hand) == (PlayerHand { knights: (old(hand).knights + 1) as u8, ..*old(hand) }),
{
    hand.knights = hand.knights + 1;
}

/// One when the tile produces `resource`, zero otherwise.
pub open spec fn produces(tile: Hex, resource: Resource) -> int {
    if tile matches Hex::Land(LandHex::Prod(r, _)) && r == resource {
        1
    } else {
        0
    }
}

/// How many of the first `k` tiles produce `resource`.
pub open spec fn tiles_producing(tiles: Seq<Hex>, resource: Resource, k: int) -> int
    decreases k,
{
    if k <= 0 {
        0
    } else {
        tiles_producing(tiles, resource, k - 1) + produces(tiles[k - 1], resource)
    }
}

proof fn lemma_tiles_producing_grows(tiles: Seq<Hex>, resource: Resource, i: int, j: int)
    requires
        0 <= i <= j,
    ensures
        0 <= tiles_producing(tiles, resource, i) <= tiles_producing(tiles, resource, j),
    decreases j,
{
    if j > i {
        lemma_tiles_producing_grows(tiles, resource, i, j - 1);
    } else if i > 0 {
        lemma_tiles_producing_grows(tiles, resource, i - 1, i - 1);
    }
}

/// The second settlement of the opening was placed among `tiles`: one card
/// of each tile's resource, for each producing tile.
pub fn harvest_second_settlement(resources: &mut Resources, tiles: &Vec<Hex>)
    requires
        forall|r: Resource| fits_i8(#[trigger] old(resources).get(r) + tiles_producing(tiles@, r, tiles@.len() as int)),
    ensures
        forall|r: Resource| #[trigger] final(resources).get(r) == old(resources).get(r) + tiles_producing(
            tiles@,
            r,
            tiles@.len() as int,
        ),
{
    let ghost start = *resources;
    let mut i: usize = 0;
    while i < tiles.len()
        invariant
            i <= tiles.len(),
            forall|r: Resource| fits_i8(#[trigger] start.get(r) + tiles_producing(tiles@, r, tiles@.len() as int)),
            forall|r: Resource| #[trigger] resources.get(r) == start.get(r) + tiles_producing(tiles@, r, i as int),
        decreases tiles.len() - i,
    {
        let tile = tiles[i];
        let ghost before = *resources;
        if let Hex::Land(LandHex::Prod(res, _)) = tile {
            proof {
                lemma_tiles_producing_grows(tiles@, res, i + 1, tiles@.len() as int);
                lemma_tiles_producing_grows(tiles@, res, 0, i as int);
            }
            let more = resources[res] + 1;
            resources.set(res, more);
        }
        proof {
            assert forall|r: Resource| #[trigger] resources.get(r) == start.get(r) + tiles_producing(
                tiles@,
                r,
                (i + 1) as int,
            ) by {
                assert(tiles_producing(tiles@, r, (i + 1) as int) == tiles_producing(tiles@, r, i as int) + produces(
                    tile,
                    r,
                ));
                assert(before.get(r) == start.get(r) + tiles_producing(tiles@, r, i as int));
            }
        }
        i = i + 1;
    }
}

} // verus!
