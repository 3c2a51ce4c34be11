use vstd::prelude::*;
use crate::board::coord::Coord;
use crate::board::layout::Layout;
use crate::game::action::Action;
use crate::state::PlayerId;
use crate::utils::resource::{Resource, Resources};
use crate::utils::seqs::{concat, lemma_concat_new_succ};

verus! {

/// The players can be counted from `player` on without a byte overflowing.
pub open spec fn rotation_fits(player: PlayerId, player_count: u8) -> bool {
    player.0 + player_count <= 256
}

/// The `p`-th player counted from `player`, wrapping around the table.
pub open spec fn rotated(player: PlayerId, player_count: u8, p: int) -> PlayerId {
    if p + player.0 >= player_count {
        PlayerId((p + player.0 - player_count) as u8)
    } else {
        PlayerId((p + player.0) as u8)
    }
}

/// Moving the thief to `hex` and robbing each player, counted from `player`.
pub open spec fn thief_block(hex: Coord, player: PlayerId, player_count: u8) -> Seq<Action> {
    Seq::new(player_count as nat, |p: int| Action::MoveThief { hex, victim: rotated(player, player_count, p) })
}

pub open spec fn thief_actions(hexes: Seq<Coord>, player: PlayerId, player_count: u8) -> Seq<Action> {
    concat(Seq::new(hexes.len(), |i: int| thief_block(hexes[i], player, player_count)))
}

pub open spec fn road_actions(paths: Seq<Coord>) -> Seq<Action> {
    Seq::new(paths.len(), |i: int| Action::BuildRoad { path: paths[i] })
}

pub open spec fn building_actions(intersections: Seq<Coord>) -> Seq<Action> {
    concat(Seq::new(intersections.len(), |i: int| seq![
        Action::BuildSettlement { intersection: intersections[i] },
        Action::BuildCity { intersection: intersections[i] },
    ]))
}

/// Trading one resource for another with the bank, for every pair of distinct resources.
pub open spec fn bank_pair(given: int, asked: int) -> Seq<Action> {
    if given != asked {
        seq![Action::TradeBank { given: Resource::at_index(given), asked: Resource::at_index(asked) }]
    } else {
        Seq::empty()
    }
}

pub open spec fn bank_block(given: int) -> Seq<Action> {
    concat(Seq::new(5, |asked: int| bank_pair(given, asked)))
}

pub open spec fn bank_actions() -> Seq<Action> {
    concat(Seq::new(5, |given: int| bank_block(given)))
}

pub open spec fn monopole_actions() -> Seq<Action> {
    Seq::new(5, |i: int| Action::DevelopmentMonopole { resource: Resource::at_index(i) })
}

/// An action made from the bundle (b, l, o, g, w): what is kept after a seven,
/// or what is taken with a year of plenty.
pub open spec fn grid_entry(keep: bool, b: int, l: int, o: int, g: int, w: int) -> Action {
    if keep {
        Action::Keep { resources: Resources::spec_new(b, l, o, g, w) }
    } else {
        Action::DevelopmentYearOfPlenty { resources: Resources::spec_new(b, l, o, g, w) }
    }
}

/// The bundles with brick `b`, lumber `l`, ore `o`, grain `g` below `n - (b + l + o)`
/// and wool `t - (b + l + o + g)`, grain growing.
pub open spec fn grid_o(n: int, t: int, keep: bool, b: int, l: int, o: int) -> Seq<Action> {
    Seq::new((n - (b + l + o)) as nat, |g: int| grid_entry(keep, b, l, o, g, t - (b + l + o + g)))
}

pub open spec fn grid_l(n: int, t: int, keep: bool, b: int, l: int) -> Seq<Action> {
    concat(Seq::new((n - (b + l)) as nat, |o: int| grid_o(n, t, keep, b, l, o)))
}

pub open spec fn grid_b(n: int, t: int, keep: bool, b: int) -> Seq<Action> {
    concat(Seq::new((n - b) as nat, |l: int| grid_l(n, t, keep, b, l)))
}

/// The bundles (b, l, o, g, t - (b + l + o + g)) with b < n, l < n - b, o < n - (b + l),
/// g < n - (b + l + o), in lexicographic order.
pub open spec fn grid(n: int, t: int, keep: bool) -> Seq<Action> {
    concat(Seq::new(n as nat, |b: int| grid_b(n, t, keep, b)))
}

/// Proposing `offer` for `want` to the `p`-th player counted from `player`;
/// the first of them is `player` itself, left out when `for_actor` holds.
pub open spec fn partner_entry(offer: Resources, want: Resources, player: PlayerId, player_count: u8, for_actor: bool, p: int) -> Seq<Action> {
    if for_actor && p == 0 {
        Seq::empty()
    } else {
        seq![Action::TradePlayers { offer, want, partner: rotated(player, player_count, p) }]
    }
}

pub open spec fn partner_block(offer: Resources, want: Resources, player: PlayerId, player_count: u8, for_actor: bool) -> Seq<Action> {
    concat(Seq::new(player_count as nat, |p: int| partner_entry(offer, want, player, player_count, for_actor, p)))
}

/// The bundle `r` with one more of the resource at position `i`.
pub open spec fn bump(r: Resources, i: int) -> Resources {
    r.with(Resource::at_index(i), (r.get(Resource::at_index(i)) + 1) as i8)
}

pub open spec fn zero_bundle() -> Resources {
    Resources::spec_new(0, 0, 0, 0, 0)
}

/// One resource for one other resource.
pub open spec fn one_for_one_pair(given: int, asked: int, player: PlayerId, player_count: u8, for_actor: bool) -> Seq<Action> {
    if given != asked {
        partner_block(
            Resources::one(Resource::at_index(given), 1),
            Resources::one(Resource::at_index(asked), 1),
            player, player_count, for_actor)
    } else {
        Seq::empty()
    }
}

pub open spec fn one_for_one_block(given: int, player: PlayerId, player_count: u8, for_actor: bool) -> Seq<Action> {
    concat(Seq::new(5, |asked: int| one_for_one_pair(given, asked, player, player_count, for_actor)))
}

/// Two resources (`given1` and `given2`, possibly the same) for one other resource.
pub open spec fn two_for_one_entry(given1: int, given2: int, asked: int, player: PlayerId, player_count: u8, for_actor: bool) -> Seq<Action> {
    if given1 != asked && given2 != asked {
        partner_block(
            bump(bump(zero_bundle(), given1), given2),
            bump(zero_bundle(), asked),
            player, player_count, for_actor)
    } else {
        Seq::empty()
    }
}

pub open spec fn two_for_one_g2(given1: int, given2: int, player: PlayerId, player_count: u8, for_actor: bool) -> Seq<Action> {
    concat(Seq::new(5, |asked: int| two_for_one_entry(given1, given2, asked, player, player_count, for_actor)))
}

pub open spec fn two_for_one_block(given1: int, player: PlayerId, player_count: u8, for_actor: bool) -> Seq<Action> {
    concat(Seq::new((5 - given1) as nat, |k: int| two_for_one_g2(given1, given1 + k, player, player_count, for_actor)))
}

/// One resource for two other resources (`asked1` and `asked2`, possibly the same).
pub open spec fn one_for_two_entry(given: int, asked1: int, asked2: int, player: PlayerId, player_count: u8, for_actor: bool) -> Seq<Action> {
    if given != asked1 && given != asked2 {
        partner_block(
            bump(zero_bundle(), given),
            bump(bump(zero_bundle(), asked1), asked2),
            player, player_count, for_actor)
    } else {
        Seq::empty()
    }
}

pub open spec fn one_for_two_a1(given: int, asked1: int, player: PlayerId, player_count: u8, for_actor: bool) -> Seq<Action> {
    concat(Seq::new((5 - asked1) as nat, |k: int| one_for_two_entry(given, asked1, asked1 + k, player, player_count, for_actor)))
}

pub open spec fn one_for_two_block(given: int, player: PlayerId, player_count: u8, for_actor: bool) -> Seq<Action> {
    concat(Seq::new(5, |asked1: int| one_for_two_a1(given, asked1, player, player_count, for_actor)))
}

pub open spec fn one_for_one_actions(player: PlayerId, player_count: u8, for_actor: bool) -> Seq<Action> {
    concat(Seq::new(5, |g: int| one_for_one_block(g, player, player_count, for_actor)))
}

pub open spec fn two_for_one_actions(player: PlayerId, player_count: u8, for_actor: bool) -> Seq<Action> {
    concat(Seq::new(5, |g: int| two_for_one_block(g, player, player_count, for_actor)))
}

pub open spec fn one_for_two_actions(player: PlayerId, player_count: u8, for_actor: bool) -> Seq<Action> {
    concat(Seq::new(5, |g: int| one_for_two_block(g, player, player_count, for_actor)))
}

/// Proposals of one resource for one, two for one and one for two, to each other player.
pub open spec fn trade_actions(player: PlayerId, player_count: u8, for_actor: bool) -> Seq<Action> {
    one_for_one_actions(player, player_count, for_actor)
        + two_for_one_actions(player, player_count, for_actor)
        + one_for_two_actions(player, player_count, for_actor)
}

/// Every action a player may ever take on a board, in a fixed order: moving the
/// thief, building roads, settlements and cities, rolling, ending the turn,
/// trading with the bank, the development cards, keeping after a seven,
/// answering a trade, and, when trades are on, proposing trades.
pub open spec fn all_possible_actions(
    player: PlayerId,
    player_count: u8,
    hexes: Seq<Coord>,
    paths: Seq<Coord>,
    intersections: Seq<Coord>,
    include_trade: bool,
    for_actor: bool,
) -> Seq<Action> {
    thief_actions(hexes, player, player_count)
        + road_actions(paths)
        + building_actions(intersections)
        + seq![Action::RollDice, Action::EndTurn]
        + bank_actions()
        + seq![Action::BuyDevelopment, Action::DevelopmentKnight, Action::DevelopmentRoadBuilding]
        + grid(3, 2, false)
        + monopole_actions()
        + grid(5, 4, true)
        + seq![Action::TradePlayersAccept, Action::TradePlayersDecline]
        + if include_trade { trade_actions(player, player_count, for_actor) } else { Seq::empty() }
}

/// The `p`-th player counted from `player`.
fn rotate(player: PlayerId, player_count: u8, p: u8) -> (r: PlayerId)
    requires
        rotation_fits(player, player_count),
        p < player_count,
    ensures
        r == rotated(player, player_count, p as int),
{
    let q = p + player.to_u8();
    if q >= player_count {
        PlayerId::from(q - player_count)
    } else {
        PlayerId::from(q)
    }
}

fn push_thief_actions(possible_actions: &mut Vec<Action>, hexes: &Vec<Coord>, player: PlayerId, player_count: u8)
    requires
        hexes.len() > 0 ==> rotation_fits(player, player_count),
    ensures
        final(possible_actions)@ == old(possible_actions)@ + thief_actions(hexes@, player, player_count),
{
    let ghost base = possible_actions@;
    let ghost f = |i: int| thief_block(hexes@[i], player, player_count);
    let mut i: usize = 0;
    while i < hexes.len()
        invariant
            i <= hexes.len(),
            hexes.len() > 0 ==> rotation_fits(player, player_count),
            f == (|i: int| thief_block(hexes@[i], player, player_count)),
            possible_actions@ == base + concat(Seq::new(i as nat, f)),
        decreases hexes.len() - i,
    {
        let hex = hexes[i];
        let ghost mid = possible_actions@;
        let mut p: u8 = 0;
        while p < player_count
            invariant
                p <= player_count,
                rotation_fits(player, player_count),
                possible_actions@ == mid + thief_block(hex, player, player_count).take(p as int),
            decreases player_count - p,
        {
            let victim = rotate(player, player_count, p);
            possible_actions.push(Action::MoveThief { hex, victim });
            proof {
                assert(thief_block(hex, player, player_count).take(p + 1) =~=
                    thief_block(hex, player, player_count).take(p as int).push(Action::MoveThief { hex, victim }));
            }
            p = p + 1;
        }
        proof {
            assert(thief_block(hex, player, player_count).take(p as int) =~= thief_block(hex, player, player_count));
            lemma_concat_new_succ(i as nat, f);
            assert(possible_actions@ =~= base + concat(Seq::new((i + 1) as nat, f)));
        }
        i = i + 1;
    }
}

fn push_road_actions(possible_actions: &mut Vec<Action>, paths: &Vec<Coord>)
    ensures
        final(possible_actions)@ == old(possible_actions)@ + road_actions(paths@),
{
    let ghost base = possible_actions@;
    let mut i: usize = 0;
    while i < paths.len()
        invariant
            i <= paths.len(),
            possible_actions@ == base + road_actions(paths@).take(i as int),
        decreases paths.len() - i,
    {
        possible_actions.push(Action::BuildRoad { path: paths[i] });
        proof {
            assert(road_actions(paths@).take(i + 1) =~= road_actions(paths@).take(i as int).push(Action::BuildRoad { path: paths@[i as int] }));
        }
        i = i + 1;
    }
    proof {
        assert(road_actions(paths@).take(i as int) =~= road_actions(paths@));
    }
}

fn push_building_actions(possible_actions: &mut Vec<Action>, intersections: &Vec<Coord>)
    ensures
        final(possible_actions)@ == old(possible_actions)@ + building_actions(intersections@),
{
    let ghost base = possible_actions@;
    let ghost f = |i: int| seq![
        Action::BuildSettlement { intersection: intersections@[i] },
        Action::BuildCity { intersection: intersections@[i] },
    ];
    let mut i: usize = 0;
    while i < intersections.len()
        invariant
            i <= intersections.len(),
            f == (|i: int| seq![
                Action::BuildSettlement { intersection: intersections@[i] },
                Action::BuildCity { intersection: intersections@[i] },
            ]),
            possible_actions@ == base + concat(Seq::new(i as nat, f)),
        decreases intersections.len() - i,
    {
        let intersection = intersections[i];
        possible_actions.push(Action::BuildSettlement { intersection });
        possible_actions.push(Action::BuildCity { intersection });
        proof {
            lemma_concat_new_succ(i as nat, f);
            assert(possible_actions@ =~= base + concat(Seq::new((i + 1) as nat, f)));
        }
        i = i + 1;
    }
}

fn push_bank_actions(possible_actions: &mut Vec<Action>)
    ensures
        final(possible_actions)@ == old(possible_actions)@ + bank_actions(),
{
    let ghost base = possible_actions@;
    let ghost f = |given: int| bank_block(given);
    let mut given: usize = 0;
    while given < 5
        invariant
            given <= 5,
            f == (|given: int| bank_block(given)),
            possible_actions@ == base + concat(Seq::new(given as nat, f)),
        decreases 5 - given,
    {
        let ghost mid = possible_actions@;
        let ghost h = |asked: int| bank_pair(given as int, asked);
        let mut asked: usize = 0;
        while asked < 5
            invariant
                asked <= 5,
                given < 5,
                h == (|asked: int| bank_pair(given as int, asked)),
                possible_actions@ == mid + concat(Seq::new(asked as nat, h)),
            decreases 5 - asked,
        {
            if given != asked {
                possible_actions.push(Action::TradeBank { given: Resource::from_index(given), asked: Resource::from_index(asked) });
            }
            proof {
                lemma_concat_new_succ(asked as nat, h);
                assert(possible_actions@ =~= mid + concat(Seq::new((asked + 1) as nat, h)));
            }
            asked = asked + 1;
        }
        proof {
            assert(Seq::new(5, h) =~= Seq::new(5, |asked: int| bank_pair(given as int, asked)));
            assert(f(given as int) == concat(Seq::new(5, h)));
            lemma_concat_new_succ(given as nat, f);
            assert(possible_actions@ =~= base + concat(Seq::new((given + 1) as nat, f)));
        }
        given = given + 1;
    }
}

fn push_monopole_actions(possible_actions: &mut Vec<Action>)
    ensures
        final(possible_actions)@ == old(possible_actions)@ + monopole_actions(),
{
    let ghost base = possible_actions@;
    let mut i: usize = 0;
    while i < 5
        invariant
            i <= 5,
            possible_actions@ == base + monopole_actions().take(i as int),
        decreases 5 - i,
    {
        let resource = Resource::from_index(i);
        possible_actions.push(Action::DevelopmentMonopole { resource });
        proof {
            assert(monopole_actions().take(i + 1) =~= monopole_actions().take(i as int).push(Action::DevelopmentMonopole { resource }));
        }
        i = i + 1;
    }
    proof {
        assert(monopole_actions().take(5) =~= monopole_actions());
    }
}

fn make_grid_entry(keep: bool, b: i8, l: i8, o: i8, g: i8, w: i8) -> (r: Action)
    ensures
        r == grid_entry(keep, b as int, l as int, o as int, g as int, w as int),
{
    let resources = Resources::new(b, l, o, g, w);
    if keep {
        Action::Keep { resources }
    } else {
        Action::DevelopmentYearOfPlenty { resources }
    }
}

/// Pushes `grid(n, t, keep)`.
fn push_grid(possible_actions: &mut Vec<Action>, n: i8, t: i8, keep: bool)
    requires
        0 <= n <= 5,
        0 <= t <= 5,
    ensures
        final(possible_actions)@ == old(possible_actions)@ + grid(n as int, t as int, keep),
{
    let ghost nn = n as int;
    let ghost tt = t as int;
    let ghost base = possible_actions@;
    let ghost fb = |b: int| grid_b(nn, tt, keep, b);
    let mut b: i8 = 0;
    while b < n
        invariant
            0 <= b <= n <= 5,
            0 <= t <= 5,
            nn == n,
            tt == t,
            fb == (|b: int| grid_b(nn, tt, keep, b)),
            possible_actions@ == base + concat(Seq::new(b as nat, fb)),
        decreases n - b,
    {
        let ghost base_b = possible_actions@;
        let ghost fl = |l: int| grid_l(nn, tt, keep, b as int, l);
        let mut l: i8 = 0;
        while l < n - b
            invariant
                0 <= b < n <= 5,
                0 <= l <= n - b,
                0 <= t <= 5,
                nn == n,
                tt == t,
                fl == (|l: int| grid_l(nn, tt, keep, b as int, l)),
                possible_actions@ == base_b + concat(Seq::new(l as nat, fl)),
            decreases n - b - l,
        {
            let ghost base_l = possible_actions@;
            let ghost fo = |o: int| grid_o(nn, tt, keep, b as int, l as int, o);
            let mut o: i8 = 0;
            while o < n - (b + l)
                invariant
                    0 <= b < n <= 5,
                    0 <= l < n - b,
                    0 <= o <= n - (b + l),
                    0 <= t <= 5,
                    nn == n,
                    tt == t,
                    fo == (|o: int| grid_o(nn, tt, keep, b as int, l as int, o)),
                    possible_actions@ == base_l + concat(Seq::new(o as nat, fo)),
                decreases n - (b + l) - o,
            {
                let ghost base_o = possible_actions@;
                let mut g: i8 = 0;
                while g < n - (b + l + o)
                    invariant
                        0 <= b < n <= 5,
                        0 <= l < n - b,
                        0 <= o < n - (b + l),
                        0 <= g <= n - (b + l + o),
                        0 <= t <= 5,
                        nn == n,
                        tt == t,
                        possible_actions@ == base_o + grid_o(nn, tt, keep, b as int, l as int, o as int).take(g as int),
                    decreases n - (b + l + o) - g,
                {
                    let w: i8 = t - (b + l + o + g);
                    let entry = make_grid_entry(keep, b, l, o, g, w);
                    possible_actions.push(entry);
                    proof {
                        assert(grid_o(nn, tt, keep, b as int, l as int, o as int).take(g + 1) =~=
                            grid_o(nn, tt, keep, b as int, l as int, o as int).take(g as int).push(entry));
                    }
                    g = g + 1;
                }
                proof {
                    assert(grid_o(nn, tt, keep, b as int, l as int, o as int).take(g as int)
                        =~= grid_o(nn, tt, keep, b as int, l as int, o as int));
                    lemma_concat_new_succ(o as nat, fo);
                    assert(possible_actions@ =~= base_l + concat(Seq::new((o + 1) as nat, fo)));
                }
                o = o + 1;
            }
            proof {
                assert(Seq::new(o as nat, fo) =~= Seq::new((nn - (b + l)) as nat, |o: int| grid_o(nn, tt, keep, b as int, l as int, o)));
                lemma_concat_new_succ(l as nat, fl);
                assert(possible_actions@ =~= base_b + concat(Seq::new((l + 1) as nat, fl)));
            }
            l = l + 1;
        }
        proof {
            assert(Seq::new(l as nat, fl) =~= Seq::new((nn - b) as nat, |l: int| grid_l(nn, tt, keep, b as int, l)));
            lemma_concat_new_succ(b as nat, fb);
            assert(possible_actions@ =~= base + concat(Seq::new((b + 1) as nat, fb)));
        }
        b = b + 1;
    }
    proof {
        assert(Seq::new(b as nat, fb) =~= Seq::new(nn as nat, |b: int| grid_b(nn, tt, keep, b)));
    }
}

fn push_partner_block(
    possible_actions: &mut Vec<Action>,
    offer: Resources,
    want: Resources,
    player: PlayerId,
    player_count: u8,
    for_actor: bool,
)
    requires
        rotation_fits(player, player_count),
    ensures
        final(possible_actions)@ == old(possible_actions)@ + partner_block(offer, want, player, player_count, for_actor),
{
    let ghost base = possible_actions@;
    let ghost f = |p: int| partner_entry(offer, want, player, player_count, for_actor, p);
    let mut p: u8 = 0;
    while p < player_count
        invariant
            p <= player_count,
            rotation_fits(player, player_count),
            f == (|p: int| partner_entry(offer, want, player, player_count, for_actor, p)),
            possible_actions@ == base + concat(Seq::new(p as nat, f)),
        decreases player_count - p,
    {
        if !(for_actor && p == 0) {
            let partner = rotate(player, player_count, p);
            possible_actions.push(Action::TradePlayers { offer, want, partner });
        }
        proof {
            lemma_concat_new_succ(p as nat, f);
            assert(possible_actions@ =~= base + concat(Seq::new((p + 1) as nat, f)));
        }
        p = p + 1;
    }
}

fn bump_at(r: &mut Resources, i: usize)
    requires
        i < 5,
        old(r).get(Resource::at_index(i as int)) < 127,
    ensures
        *final(r) == bump(*old(r), i as int),
{
    let v = r.get_at(i);
    r.set_at(i, v + 1);
}

fn push_one_for_one(possible_actions: &mut Vec<Action>, player: PlayerId, player_count: u8, for_actor: bool)
    requires
        rotation_fits(player, player_count),
    ensures
        final(possible_actions)@ == old(possible_actions)@ + one_for_one_actions(player, player_count, for_actor),
{
    let ghost base = possible_actions@;
    let ghost f = |g: int| one_for_one_block(g, player, player_count, for_actor);
    let mut given: usize = 0;
    while given < 5
        invariant
            given <= 5,
            rotation_fits(player, player_count),
            f == (|g: int| one_for_one_block(g, player, player_count, for_actor)),
            possible_actions@ == base + concat(Seq::new(given as nat, f)),
        decreases 5 - given,
    {
        let ghost mid = possible_actions@;
        let ghost h = |asked: int| one_for_one_pair(given as int, asked, player, player_count, for_actor);
        let mut asked: usize = 0;
        while asked < 5
            invariant
                given < 5,
                asked <= 5,
                rotation_fits(player, player_count),
                h == (|asked: int| one_for_one_pair(given as int, asked, player, player_count, for_actor)),
                possible_actions@ == mid + concat(Seq::new(asked as nat, h)),
            decreases 5 - asked,
        {
            if given != asked {
                push_partner_block(
                    possible_actions,
                    Resources::new_one(Resource::from_index(given), 1),
                    Resources::new_one(Resource::from_index(asked), 1),
                    player,
                    player_count,
                    for_actor,
                );
            }
            proof {
                lemma_concat_new_succ(asked as nat, h);
                assert(possible_actions@ =~= mid + concat(Seq::new((asked + 1) as nat, h)));
            }
            asked = asked + 1;
        }
        proof {
            assert(Seq::new(5, h) =~= Seq::new(5, |asked: int| one_for_one_pair(given as int, asked, player, player_count, for_actor)));
            assert(f(given as int) == concat(Seq::new(5, h)));
            lemma_concat_new_succ(given as nat, f);
            assert(possible_actions@ =~= base + concat(Seq::new((given + 1) as nat, f)));
        }
        given = given + 1;
    }
}

fn push_two_for_one(possible_actions: &mut Vec<Action>, player: PlayerId, player_count: u8, for_actor: bool)
    requires
        rotation_fits(player, player_count),
    ensures
        final(possible_actions)@ == old(possible_actions)@ + two_for_one_actions(player, player_count, for_actor),
{
    let ghost base = possible_actions@;
    let ghost f = |g: int| two_for_one_block(g, player, player_count, for_actor);
    let mut given1: usize = 0;
    while given1 < 5
        invariant
            given1 <= 5,
            rotation_fits(player, player_count),
            f == (|g: int| two_for_one_block(g, player, player_count, for_actor)),
            possible_actions@ == base + concat(Seq::new(given1 as nat, f)),
        decreases 5 - given1,
    {
        let ghost mid1 = possible_actions@;
        let ghost h1 = |k: int| two_for_one_g2(given1 as int, given1 + k, player, player_count, for_actor);
        let mut given2: usize = given1;
        while given2 < 5
            invariant
                given1 < 5,
                given1 <= given2 <= 5,
                rotation_fits(player, player_count),
                h1 == (|k: int| two_for_one_g2(given1 as int, given1 + k, player, player_count, for_actor)),
                possible_actions@ == mid1 + concat(Seq::new((given2 - given1) as nat, h1)),
            decreases 5 - given2,
        {
            let ghost mid2 = possible_actions@;
            let ghost h2 = |asked: int| two_for_one_entry(given1 as int, given2 as int, asked, player, player_count, for_actor);
            let mut asked: usize = 0;
            while asked < 5
                invariant
                    given1 < 5,
                    given1 <= given2 < 5,
                    asked <= 5,
                    rotation_fits(player, player_count),
                    h2 == (|asked: int| two_for_one_entry(given1 as int, given2 as int, asked, player, player_count, for_actor)),
                    possible_actions@ == mid2 + concat(Seq::new(asked as nat, h2)),
                decreases 5 - asked,
            {
                if given1 != asked && given2 != asked {
                    let mut offer = Resources::zero();
                    bump_at(&mut offer, given1);
                    bump_at(&mut offer, given2);
                    let mut want = Resources::zero();
                    bump_at(&mut want, asked);
                    push_partner_block(possible_actions, offer, want, player, player_count, for_actor);
                }
                proof {
                    lemma_concat_new_succ(asked as nat, h2);
                    assert(possible_actions@ =~= mid2 + concat(Seq::new((asked + 1) as nat, h2)));
                }
                asked = asked + 1;
            }
            proof {
                assert(Seq::new(5, h2) =~= Seq::new(5, |asked: int| two_for_one_entry(given1 as int, given2 as int, asked, player, player_count, for_actor)));
                assert(h1((given2 - given1) as int) == concat(Seq::new(5, h2)));
                lemma_concat_new_succ((given2 - given1) as nat, h1);
                assert(possible_actions@ =~= mid1 + concat(Seq::new((given2 + 1 - given1) as nat, h1)));
            }
            given2 = given2 + 1;
        }
        proof {
            assert(Seq::new((given2 - given1) as nat, h1) =~= Seq::new((5 - given1) as nat, |k: int| two_for_one_g2(given1 as int, given1 + k, player, player_count, for_actor)));
            assert(f(given1 as int) == concat(Seq::new((given2 - given1) as nat, h1)));
            lemma_concat_new_succ(given1 as nat, f);
            assert(possible_actions@ =~= base + concat(Seq::new((given1 + 1) as nat, f)));
        }
        given1 = given1 + 1;
    }
}

fn push_one_for_two(possible_actions: &mut Vec<Action>, player: PlayerId, player_count: u8, for_actor: bool)
    requires
        rotation_fits(player, player_count),
    ensures
        final(possible_actions)@ == old(possible_actions)@ + one_for_two_actions(player, player_count, for_actor),
{
    let ghost base = possible_actions@;
    let ghost f = |g: int| one_for_two_block(g, player, player_count, for_actor);
    let mut given: usize = 0;
    while given < 5
        invariant
            given <= 5,
            rotation_fits(player, player_count),
            f == (|g: int| one_for_two_block(g, player, player_count, for_actor)),
            possible_actions@ == base + concat(Seq::new(given as nat, f)),
        decreases 5 - given,
    {
        let ghost mid1 = possible_actions@;
        let ghost h1 = |asked1: int| one_for_two_a1(given as int, asked1, player, player_count, for_actor);
        let mut asked1: usize = 0;
        while asked1 < 5
            invariant
                given < 5,
                asked1 <= 5,
                rotation_fits(player, player_count),
                h1 == (|asked1: int| one_for_two_a1(given as int, asked1, player, player_count, for_actor)),
                possible_actions@ == mid1 + concat(Seq::new(asked1 as nat, h1)),
            decreases 5 - asked1,
        {
            let ghost mid2 = possible_actions@;
            let ghost h2 = |k: int| one_for_two_entry(given as int, asked1 as int, asked1 + k, player, player_count, for_actor);
            let mut asked2: usize = asked1;
            while asked2 < 5
                invariant
                    given < 5,
                    asked1 < 5,
                    asked1 <= asked2 <= 5,
                    rotation_fits(player, player_count),
                    h2 == (|k: int| one_for_two_entry(given as int, asked1 as int, asked1 + k, player, player_count, for_actor)),
                    possible_actions@ == mid2 + concat(Seq::new((asked2 - asked1) as nat, h2)),
                decreases 5 - asked2,
            {
                if given != asked1 && given != asked2 {
                    let mut offer = Resources::zero();
                    bump_at(&mut offer, given);
                    let mut want = Resources::zero();
                    bump_at(&mut want, asked1);
                    bump_at(&mut want, asked2);
                    push_partner_block(possible_actions, offer, want, player, player_count, for_actor);
                }
                proof {
                    assert(h2((asked2 - asked1) as int) == one_for_two_entry(given as int, asked1 as int, asked2 as int, player, player_count, for_actor));
                    lemma_concat_new_succ((asked2 - asked1) as nat, h2);
                    assert(possible_actions@ =~= mid2 + concat(Seq::new((asked2 + 1 - asked1) as nat, h2)));
                }
                asked2 = asked2 + 1;
            }
            proof {
                assert(Seq::new((asked2 - asked1) as nat, h2) =~= Seq::new((5 - asked1) as nat, |k: int| one_for_two_entry(given as int, asked1 as int, asked1 + k, player, player_count, for_actor)));
                assert(h1(asked1 as int) == concat(Seq::new((asked2 - asked1) as nat, h2)));
                lemma_concat_new_succ(asked1 as nat, h1);
                assert(possible_actions@ =~= mid1 + concat(Seq::new((asked1 + 1) as nat, h1)));
            }
            asked1 = asked1 + 1;
        }
        proof {
            assert(Seq::new(5, h1) =~= Seq::new(5, |asked1: int| one_for_two_a1(given as int, asked1, player, player_count, for_actor)));
            assert(f(given as int) == concat(Seq::new(5, h1)));
            lemma_concat_new_succ(given as nat, f);
            assert(possible_actions@ =~= base + concat(Seq::new((given + 1) as nat, f)));
        }
        given = given + 1;
    }
}

/// Fills `possible_actions` with every action a player may ever take on the
/// board `layout`: for the player `player` of a game of `player_count`
/// players, with trade proposals when `include_trade` holds, and without
/// proposals to the player itself when `for_actor` holds.
pub fn generate_possible_actions_without_state(
    possible_actions: &mut Vec<Action>,
    player: PlayerId,
    player_count: u8,
    layout: &Layout,
    include_trade: bool,
    for_actor: bool,
)
    requires
        layout.hexes.len() > 0 || include_trade ==> rotation_fits(player, player_count),
    ensures
        final(possible_actions)@ == all_possible_actions(
            player,
            player_count,
            layout.hexes@,
            layout.paths@,
            layout.intersections@,
            include_trade,
            for_actor,
        ),
{
    possible_actions.clear();
    push_thief_actions(possible_actions, &layout.hexes, player, player_count);
    push_road_actions(possible_actions, &layout.paths);
    push_building_actions(possible_actions, &layout.intersections);
    possible_actions.push(Action::RollDice);
    possible_actions.push(Action::EndTurn);
    push_bank_actions(possible_actions);
    possible_actions.push(Action::BuyDevelopment);
    possible_actions.push(Action::DevelopmentKnight);
    possible_actions.push(Action::DevelopmentRoadBuilding);
    push_grid(possible_actions, 3, 2, false);
    push_monopole_actions(possible_actions);
    push_grid(possible_actions, 5, 4, true);
    possible_actions.push(Action::TradePlayersAccept);
    possible_actions.push(Action::TradePlayersDecline);
    let ghost before_trade = possible_actions@;
    if include_trade {
        push_one_for_one(possible_actions, player, player_count, for_actor);
        push_two_for_one(possible_actions, player, player_count, for_actor);
        push_one_for_two(possible_actions, player, player_count, for_actor);
    }
    proof {
        assert(possible_actions@ =~= all_possible_actions(
            player,
            player_count,
            layout.hexes@,
            layout.paths@,
            layout.intersections@,
            include_trade,
            for_actor,
        ));
    }
}

} // verus!
