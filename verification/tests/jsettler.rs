use catan::board::coord::{Coord, Type};
use catan::board::layout::Layout;
use catan::game::phase::{DevelopmentPhase, Phase, TurnPhase};
use catan::game::action::{Action, ActionCategory};
use catan::jsettler::decode::decode_action;
use catan::jsettler::discard::{discard_at_random, take_card_at};
use catan::jsettler::hand::{resolve_development_cards, resolve_hand};
use catan::jsettler::layout::{decode_layout_cell, LayoutCell};
use catan::jsettler::phase::{
    mark_development_used, set_development_played, set_discard_phase, set_trade_supposed, start_player_turn,
    update_phase,
};
use catan::jsettler::settle::settle;
use catan::jsettler::tables::{
    js_card_to_development_card, js_edge_to_rust_coord, js_hex_to_rust_coord, js_index_to_direction,
    js_index_to_rust_hex, js_intersection_to_rust_coord, js_res_to_rust_res, rust_coord_to_js_edge,
    rust_coord_to_js_hex, rust_coord_to_js_intersection, rust_res_to_js_res,
};
use catan::player::picker_player::generate_possible_actions_without_state;
use catan::jsettler::updates::{
    execute_bank_trade, execute_discard, execute_robbery, execute_trade, js_hand, js_resources,
    harvest_second_settlement, mature_development_cards, record_city, record_knight, record_road,
    record_settlement, update_develop_card, update_player_resource, update_resources,
};
use catan::state::player_hand::PlayerHand;
use catan::state::PlayerId;
use catan::utils::development_card::{DevelopmentCard, DevelopmentCards};
use catan::utils::resource::{Resource, Resources};
use catan::utils::{Harbor, Hex, LandHex};

const HEXES: [i32; 19] = [51, 53, 55, 83, 85, 87, 89, 115, 117, 119, 121, 123, 149, 151, 153, 155, 183, 185, 187];

#[test]
fn js_hexes_convert_both_ways() {
    assert_eq!(js_hex_to_rust_coord(119), Coord::new(0, 0));
    assert_eq!(js_hex_to_rust_coord(51), Coord::new(-8, 0));
    assert_eq!(js_hex_to_rust_coord(185), Coord::new(6, -2));
    for js in HEXES.iter() {
        let c = js_hex_to_rust_coord(*js);
        assert_eq!(c.get_type(), Type::Hex);
        assert_eq!(rust_coord_to_js_hex(&c), *js);
    }
}

#[test]
fn js_intersections_convert_both_ways() {
    assert_eq!(js_intersection_to_rust_coord(35), Coord::new(-10, 1));
    assert_eq!(js_intersection_to_rust_coord(220), Coord::new(10, -1));
    assert_eq!(rust_coord_to_js_intersection(&Coord::new(0, 1)), 120);
    for js in INTERSECTIONS.iter() {
        let c = js_intersection_to_rust_coord(*js);
        assert_eq!(c.get_type(), Type::Intersection);
        assert_eq!(rust_coord_to_js_intersection(&c), *js);
    }
}

const INTERSECTIONS: [i32; 54] = [
    35, 37, 39, 50, 52, 54, 56, 67, 69, 71, 73, 82, 84, 86, 88, 90, 99, 101, 103, 105, 107, 114, 116, 118, 120,
    122, 124, 131, 133, 135, 137, 139, 141, 148, 150, 152, 154, 156, 165, 167, 169, 171, 173, 182, 184, 186, 188,
    199, 201, 203, 205, 216, 218, 220,
];

#[test]
fn js_edges_convert_both_ways() {
    assert_eq!(js_edge_to_rust_coord(34), Coord::new(-10, 0));
    assert_eq!(js_edge_to_rust_coord(204), Coord::new(10, 0));
    assert_eq!(js_edge_to_rust_coord(103), Coord::new(-1, 1));
    assert_eq!(rust_coord_to_js_edge(&Coord::new(2, 0)), 136);
    let c = js_edge_to_rust_coord(136);
    assert_eq!(c.get_type(), Type::Path);
    assert_eq!(rust_coord_to_js_edge(&c), 136);
}

#[test]
fn js_resources_convert_both_ways() {
    assert_eq!(js_res_to_rust_res(1), Resource::Brick);
    assert_eq!(js_res_to_rust_res(2), Resource::Ore);
    assert_eq!(js_res_to_rust_res(3), Resource::Wool);
    assert_eq!(js_res_to_rust_res(4), Resource::Grain);
    assert_eq!(js_res_to_rust_res(5), Resource::Lumber);
    for r in Resource::ALL.iter() {
        assert_eq!(js_res_to_rust_res(rust_res_to_js_res(*r)), *r);
    }
}

#[test]
fn js_directions_and_layout_cells() {
    assert_eq!(js_index_to_direction(1), (1, 1));
    assert_eq!(js_index_to_direction(4), (-1, -1));
    assert_eq!(js_index_to_direction(6), (-1, 1));
    assert_eq!(js_index_to_rust_hex(0), Coord::new(-6, 6));
    assert_eq!(js_index_to_rust_hex(18), Coord::new(0, 0));
    assert_eq!(js_index_to_rust_hex(36), Coord::new(6, -6));
    for i in 0..37 {
        assert_eq!(js_index_to_rust_hex(i).get_type(), Type::Hex);
    }
}

#[test]
fn js_development_card_numbers() {
    assert_eq!(js_card_to_development_card(1), Some(DevelopmentCard::RoadBuilding));
    assert_eq!(js_card_to_development_card(2), Some(DevelopmentCard::YearOfPlenty));
    assert_eq!(js_card_to_development_card(3), Some(DevelopmentCard::Monopole));
    assert_eq!(js_card_to_development_card(6), Some(DevelopmentCard::VictoryPoint));
    assert_eq!(js_card_to_development_card(9), Some(DevelopmentCard::Knight));
    assert_eq!(js_card_to_development_card(0), Some(DevelopmentCard::Knight));
    assert_eq!(js_card_to_development_card(10), None);
}

#[test]
fn settle_takes_debts_from_the_first_positions() {
    let mut v: Vec<i8> = vec![2, -3, 1, 4, -1];
    settle(&mut v);
    assert_eq!(v, vec![0, 0, 0, 3, 0]);
    let mut w: Vec<i8> = vec![1, 2, 3];
    settle(&mut w);
    assert_eq!(w, vec![1, 2, 3]);
    let mut d: Vec<i8> = vec![1, -5, 2];
    settle(&mut d);
    assert_eq!(d, vec![0, 0, 0]);
}

#[test]
fn resolve_hand_keeps_the_size_of_the_hand() {
    let mut r = Resources::new(3, -2, 1, 0, 2);
    resolve_hand(&mut r);
    assert_eq!(r, Resources::new(1, 0, 1, 0, 2));
    assert_eq!(r.total(), 4);
    let mut ok = Resources::new(1, 2, 3, 4, 5);
    resolve_hand(&mut ok);
    assert_eq!(ok, Resources::new(1, 2, 3, 4, 5));
}

#[test]
fn resolve_development_cards_keeps_the_total() {
    let mut c = DevelopmentCards { knight: -1, road_building: 0, year_of_plenty: 2, monopole: 0, victory_point: 1 };
    resolve_development_cards(&mut c);
    assert_eq!(c, DevelopmentCards { knight: 0, road_building: 0, year_of_plenty: 1, monopole: 0, victory_point: 1 });
}

fn turn(turn_phase: TurnPhase, development_phase: DevelopmentPhase) -> Phase {
    Phase::Turn { player: PlayerId::from(1u8), turn_phase, development_phase }
}

#[test]
fn update_phase_follows_the_state_numbers() {
    let mut p = turn(TurnPhase::Free, DevelopmentPhase::KnightActive);
    update_phase(&mut p, 15);
    assert_eq!(p, turn(TurnPhase::PreRoll, DevelopmentPhase::KnightActive));
    update_phase(&mut p, 33);
    assert_eq!(p, turn(TurnPhase::MoveThief, DevelopmentPhase::KnightActive));
    update_phase(&mut p, 40);
    assert_eq!(p, turn(TurnPhase::MoveThief, DevelopmentPhase::RoadBuildingActive { two_left: true }));
    update_phase(&mut p, 99);
    assert_eq!(p, turn(TurnPhase::MoveThief, DevelopmentPhase::RoadBuildingActive { two_left: true }));
    update_phase(&mut p, 11);
    assert_eq!(p, Phase::InitialPlacement { player: PlayerId::from(1u8), placing_second: true, placing_road: true });
    update_phase(&mut p, 20);
    assert_eq!(p, turn(TurnPhase::Free, DevelopmentPhase::Ready));
}

#[test]
fn update_phase_outside_a_turn_uses_the_deciding_player() {
    let mut p = Phase::InitialPlacement { player: PlayerId::from(2u8), placing_second: false, placing_road: false };
    update_phase(&mut p, 6);
    assert_eq!(p, Phase::InitialPlacement { player: PlayerId::from(2u8), placing_second: false, placing_road: true });
    update_phase(&mut p, 41);
    assert_eq!(
        p,
        Phase::Turn {
            player: PlayerId::from(2u8),
            turn_phase: TurnPhase::PreRoll,
            development_phase: DevelopmentPhase::RoadBuildingActive { two_left: false },
        }
    );
}

#[test]
fn road_building_is_spent_after_two_roads() {
    let mut p = turn(TurnPhase::Free, DevelopmentPhase::RoadBuildingActive { two_left: true });
    set_development_played(&mut p);
    assert_eq!(p, turn(TurnPhase::Free, DevelopmentPhase::RoadBuildingActive { two_left: false }));
    set_development_played(&mut p);
    assert_eq!(p, turn(TurnPhase::Free, DevelopmentPhase::DevelopmentPlayed));
    set_development_played(&mut p);
    assert_eq!(p, turn(TurnPhase::Free, DevelopmentPhase::DevelopmentPlayed));
}

#[test]
fn other_phase_changes() {
    let mut p = turn(TurnPhase::Free, DevelopmentPhase::Ready);
    mark_development_used(&mut p);
    assert_eq!(p, turn(TurnPhase::Free, DevelopmentPhase::DevelopmentPlayed));
    set_discard_phase(&mut p, PlayerId::from(0u8));
    assert_eq!(p, turn(TurnPhase::Discard(PlayerId::from(0u8)), DevelopmentPhase::DevelopmentPlayed));
    set_trade_supposed(&mut p, PlayerId::from(2u8));
    assert_eq!(p, turn(TurnPhase::TradeSupposed(PlayerId::from(2u8)), DevelopmentPhase::DevelopmentPlayed));
    start_player_turn(&mut p, PlayerId::from(0u8));
    assert_eq!(p, Phase::Turn { player: PlayerId::from(0u8), turn_phase: TurnPhase::PreRoll, development_phase: DevelopmentPhase::Ready });
    let mut q = Phase::start_game();
    set_discard_phase(&mut q, PlayerId::from(1u8));
    assert_eq!(q, Phase::start_game());
}

#[test]
fn js_lists_of_counts() {
    let r = Resources::new(1, 2, 3, 4, 5);
    assert_eq!(js_hand(&r), vec![1, 3, 5, 4, 2]);
    assert_eq!(js_resources(&js_hand(&r)), r);
    assert_eq!(js_resources(&vec![1, 0, 0, 0, 9, 7]), Resources::new(1, 9, 0, 0, 0));
}

#[test]
fn update_resources_sets_adds_and_removes() {
    let mut r = Resources::new(1, 1, 1, 1, 1);
    update_resources(&mut r, 101, &vec![1, 0, 0, 0, 2]);
    assert_eq!(r, Resources::new(2, 3, 1, 1, 1));
    update_resources(&mut r, 102, &vec![0, 3, 0, 0, 0]);
    assert_eq!(r, Resources::new(0, 3, 0, 1, 1));
    update_resources(&mut r, 100, &vec![0, 0, 0, 0, 0]);
    assert_eq!(r, Resources::zero());
}

#[test]
fn discard_with_unknown_cards_counts_them_as_bricks() {
    let mut r = Resources::new(1, 2, 2, 1, 0);
    execute_discard(&mut r, &vec![0, 1, 0, 0, 1, 2]);
    // Two unknown cards taken as bricks leave one brick owed, paid with lumber.
    assert_eq!(r, Resources::new(0, 0, 1, 1, 0));
}

#[test]
fn trades_move_the_difference() {
    let mut a = Resources::new(2, 0, 0, 0, 0);
    let mut b = Resources::new(0, 0, 1, 0, 0);
    execute_trade(&mut a, &mut b, &vec![2, 0, 0, 0, 0], &vec![0, 1, 0, 0, 0]);
    assert_eq!(a, Resources::new(0, 0, 1, 0, 0));
    assert_eq!(b, Resources::new(2, 0, 0, 0, 0));
    let mut c = Resources::new(4, 0, 0, 0, 0);
    execute_bank_trade(&mut c, &vec![4, 0, 0, 0, 0], &vec![0, 0, 0, 1, 0]);
    assert_eq!(c, Resources::new(0, 0, 0, 1, 0));
}

#[test]
fn robbery_moves_one_card() {
    let mut thief = Resources::zero();
    let mut victim = Resources::new(0, 1, 0, 0, 0);
    execute_robbery(&mut thief, &mut victim, 5);
    assert_eq!(thief, Resources::new(0, 1, 0, 0, 0));
    assert_eq!(victim, Resources::zero());
    let mut victim2 = Resources::new(0, 0, 2, 0, 0);
    execute_robbery(&mut thief, &mut victim2, 6);
    assert_eq!(thief, Resources::new(1, 1, 0, 0, 0));
    assert_eq!(victim2, Resources::new(0, 0, 1, 0, 0));
}

#[test]
fn development_card_messages() {
    let mut hand = PlayerHand::new();
    let mut stock = DevelopmentCards { knight: 14, road_building: 2, year_of_plenty: 2, monopole: 2, victory_point: 5 };
    update_develop_card(&mut hand, &mut stock, 0, 3);
    assert_eq!(hand.new_development_cards.monopole, 1);
    assert_eq!(stock.monopole, 1);
    update_develop_card(&mut hand, &mut stock, 3, 9);
    assert_eq!(hand.development_cards.knight, 1);
    update_develop_card(&mut hand, &mut stock, 1, 2);
    // The year of plenty played was not known to be held: the knight pays for it.
    assert_eq!(hand.development_cards, DevelopmentCards::new());
    update_develop_card(&mut hand, &mut stock, 7, 1);
    update_develop_card(&mut hand, &mut stock, 0, 42);
    assert_eq!(stock, DevelopmentCards { knight: 14, road_building: 2, year_of_plenty: 2, monopole: 1, victory_point: 5 });
}

#[test]
fn layout_cells() {
    assert_eq!(decode_layout_cell(18, 0, 0), (Coord::new(0, 0), LayoutCell::Tile(Hex::Land(LandHex::Desert))));
    assert_eq!(
        decode_layout_cell(17, 2, 8),
        (Coord::new(-4, 0), LayoutCell::Tile(Hex::Land(LandHex::Prod(Resource::Ore, 8))))
    );
    assert_eq!(decode_layout_cell(0, 6, 0), (Coord::new(-6, 6), LayoutCell::Water));
    assert_eq!(
        decode_layout_cell(0, 9, 0),
        (Coord::new(-6, 6), LayoutCell::HarborSide { path: Coord::new(-5, 5), harbor: Harbor::Generic })
    );
    // Low bits 3: wool; high bits 4: the lower left side.
    assert_eq!(
        decode_layout_cell(1, 0x43, 0),
        (Coord::new(-2, 6), LayoutCell::HarborSide { path: Coord::new(-3, 5), harbor: Harbor::Special(Resource::Wool) })
    );
    if let (_, LayoutCell::HarborSide { path, .. }) = decode_layout_cell(20, 12, 0) {
        assert_eq!(path.get_type(), Type::Path);
    } else {
        panic!("expected a harbor");
    }
}

fn hands_with(resources: &[Resources]) -> Vec<PlayerHand> {
    resources
        .iter()
        .map(|r| {
            let mut h = PlayerHand::new();
            h.resources = *r;
            h
        })
        .collect()
}

#[test]
fn take_card_at_counts_cards_in_resource_order() {
    let d = Resources::new(1, 0, 2, 0, 1);
    assert_eq!(take_card_at(d, 0), Resources::new(0, 0, 2, 0, 1));
    assert_eq!(take_card_at(d, 2), Resources::new(1, 0, 1, 0, 1));
    assert_eq!(take_card_at(d, 3), Resources::new(1, 0, 2, 0, 0));
    assert_eq!(take_card_at(d, 4), d);
}

#[test]
fn discard_at_random_puts_back_the_extra_cards() {
    for _ in 0..50 {
        let d = discard_at_random(Resources::new(3, 2, 0, 1, 1), 4);
        assert_eq!(d.total(), 4);
        assert!(d <= Resources::new(3, 2, 0, 1, 1));
        assert!(d >= Resources::zero());
    }
    assert_eq!(discard_at_random(Resources::new(1, 0, 0, 0, 1), 4), Resources::new(1, 0, 0, 0, 1));
}

#[test]
fn decode_board_actions() {
    let hands = hands_with(&[Resources::new(1, 0, 0, 0, 0), Resources::new(0, 2, 0, 0, 0)]);
    let phase = Phase::start_turns();
    let road = decode_action(Action::BuildRoad { path: Coord::new(2, 0) }, PlayerId::from(0u8), &phase, &hands, &vec![]);
    assert_eq!(road.action_type, ActionCategory::BuildRoad as i32);
    assert_eq!((road.param0, road.param1), (136, -1));
    assert_eq!(road.res0, vec![0; 5]);
    let city = decode_action(Action::BuildCity { intersection: Coord::new(0, 1) }, PlayerId::from(0u8), &phase, &hands, &vec![]);
    assert_eq!((city.action_type, city.param0), (ActionCategory::BuildCity as i32, 120));
    let end = decode_action(Action::EndTurn, PlayerId::from(0u8), &phase, &hands, &vec![]);
    assert_eq!((end.action_type, end.param0, end.param1), (0, -1, -1));
}

#[test]
fn decode_thief_picks_a_victim_with_cards() {
    let hands = hands_with(&[Resources::new(1, 0, 0, 0, 0), Resources::zero(), Resources::new(0, 0, 3, 0, 0)]);
    let phase = Phase::start_turns();
    let me = PlayerId::from(0u8);
    let rob = |victim: u8, owners: Vec<Option<PlayerId>>| {
        decode_action(Action::MoveThief { hex: Coord::new(0, 0), victim: PlayerId::from(victim) }, me, &phase, &hands, &owners)
    };
    let a = rob(2, vec![]);
    assert_eq!((a.action_type, a.param0, a.param1), (ActionCategory::MoveThief as i32, 119, 2));
    assert_eq!(rob(0, vec![]).param1, -1);
    let owners = vec![None, Some(PlayerId::from(0u8)), Some(PlayerId::from(1u8)), Some(PlayerId::from(2u8)), None, None];
    assert_eq!(rob(1, owners.clone()).param1, 2);
    assert_eq!(rob(1, vec![Some(PlayerId::from(1u8))]).param1, -1);
}

#[test]
fn decode_trades_and_cards() {
    let mut hands = hands_with(&[Resources::new(4, 0, 0, 0, 0)]);
    hands[0].harbor.add(Harbor::Generic);
    let me = PlayerId::from(0u8);
    let phase = Phase::Turn { player: PlayerId::from(2u8), turn_phase: TurnPhase::Free, development_phase: DevelopmentPhase::Ready };
    let bank = decode_action(Action::TradeBank { given: Resource::Brick, asked: Resource::Wool }, me, &phase, &hands, &vec![]);
    assert_eq!(bank.res0, vec![3, 0, 0, 0, 0]);
    assert_eq!(bank.res1, vec![0, 0, 1, 0, 0]);
    let offer = decode_action(
        Action::TradePlayers { offer: Resources::new(1, 0, 0, 0, 0), want: Resources::new(0, 1, 1, 0, 0), partner: PlayerId::from(1u8) },
        me,
        &phase,
        &hands,
        &vec![],
    );
    assert_eq!((offer.param0, offer.res0.clone(), offer.res1.clone()), (1, vec![1, 0, 0, 0, 0], vec![0, 1, 0, 0, 1]));
    let accept = decode_action(Action::TradePlayersAccept, me, &phase, &hands, &vec![]);
    assert_eq!(accept.param0, 2);
    let plenty = decode_action(Action::DevelopmentYearOfPlenty { resources: Resources::new(0, 0, 1, 1, 0) }, me, &phase, &hands, &vec![]);
    assert_eq!(plenty.res0, vec![0, 1, 0, 1, 0]);
    let monopoly = decode_action(Action::DevelopmentMonopole { resource: Resource::Grain }, me, &phase, &hands, &vec![]);
    assert_eq!((monopoly.action_type, monopoly.param0), (ActionCategory::DevelopmentMonopole as i32, 4));
}

#[test]
fn decode_keep_tells_the_discards() {
    let hands = hands_with(&[Resources::new(4, 2, 0, 2, 0)]);
    let me = PlayerId::from(0u8);
    let phase = Phase::start_turns();
    let exact = decode_action(Action::Keep { resources: Resources::new(2, 1, 0, 1, 0) }, me, &phase, &hands, &vec![]);
    assert_eq!(exact.action_type, ActionCategory::Keep as i32);
    assert_eq!(exact.res0, vec![2, 0, 0, 1, 1]);
    for _ in 0..20 {
        let short = decode_action(Action::Keep { resources: Resources::new(1, 0, 0, 0, 0) }, me, &phase, &hands, &vec![]);
        assert_eq!(short.res0.iter().sum::<i32>(), 4);
        assert!(short.res0[0] <= 3 && short.res0[3] <= 2 && short.res0[4] <= 2);
        assert_eq!((short.res0[1], short.res0[2]), (0, 0));
    }
}

#[test]
fn trade_table_rows_for_three_players() {
    let table = catan::jsettler::trade_table::get_trade_table(3);
    assert_eq!(table.len(), 240);
    assert!(table.iter().all(|row| row.len() == 9));
    assert_eq!(table[0], vec![-1, 1, 0, 0, 0, 1, 0, 0, 0]);
    assert_eq!(table[1], vec![-1, 1, 0, 0, 0, 0, 1, 0, 0]);
    assert_eq!(table[40], vec![-2, 1, 0, 0, 0, 1, 0, 1, 0]);
    assert_eq!(table[140], vec![-1, 2, 0, 0, 0, 1, 0, -1, 0]);
    assert_eq!(table[239], vec![0, 0, 0, 2, -1, 0, 1, 0, -1]);
}

#[test]
fn trade_table_for_a_single_player_is_empty() {
    assert!(catan::jsettler::trade_table::get_trade_table(1).is_empty());
    assert_eq!(catan::jsettler::trade_table::list_trade_changes().len(), 120);
}

#[test]
fn one_resource_messages() {
    let mut r = Resources::new(1, 1, 1, 1, 1);
    update_player_resource(&mut r, 100, 3, 7);
    assert_eq!(r, Resources::new(1, 1, 1, 1, 7));
    update_player_resource(&mut r, 101, 5, 2);
    assert_eq!(r, Resources::new(1, 3, 1, 1, 7));
    update_player_resource(&mut r, 102, 1, 3);
    assert_eq!(r, Resources::new(-2, 3, 1, 1, 7));
}

#[test]
fn bought_cards_become_playable() {
    let mut hand = PlayerHand::new();
    hand.new_development_cards.knight = 2;
    hand.development_cards.knight = 1;
    hand.development_cards.monopole = 1;
    mature_development_cards(&mut hand);
    assert_eq!(hand.development_cards, DevelopmentCards { knight: 3, road_building: 0, year_of_plenty: 0, monopole: 1, victory_point: 0 });
    assert_eq!(hand.new_development_cards, DevelopmentCards::new());
}

#[test]
fn trade_table_rows_follow_the_trade_proposals() {
    let layout = Layout { hexes: vec![], paths: vec![], intersections: vec![] };
    let mut without = Vec::new();
    generate_possible_actions_without_state(&mut without, PlayerId::from(0u8), 4, &layout, false, true);
    let mut with = Vec::new();
    generate_possible_actions_without_state(&mut with, PlayerId::from(0u8), 4, &layout, true, true);
    let trades = &with[without.len()..];
    let table = catan::jsettler::trade_table::get_trade_table(4);
    assert_eq!(table.len(), trades.len());
    for (row, action) in table.iter().zip(trades.iter()) {
        if let Action::TradePlayers { offer, want, partner } = action {
            let change = *want - *offer;
            let p = partner.to_usize() - 1;
            let mut expected = vec![change.brick, change.lumber, change.ore, change.grain, change.wool, 0, 0, 0, 0, 0, 0];
            expected[5 + p] = 1;
            expected[8 + p] = -change.total();
            assert_eq!(*row, expected);
        } else {
            panic!("expected a trade proposal");
        }
    }
}

#[test]
fn pieces_and_points_after_building() {
    let mut hand = PlayerHand::new();
    record_road(&mut hand);
    assert_eq!(hand.road_pieces, 14);
    record_settlement(&mut hand, Harbor::Special(Resource::Grain));
    assert_eq!((hand.settlement_pieces, hand.building_vp), (4, 1));
    assert_eq!(hand.harbor.rate(Resource::Grain), 2);
    record_settlement(&mut hand, Harbor::NoHarbor);
    assert_eq!((hand.settlement_pieces, hand.building_vp), (3, 2));
    record_city(&mut hand);
    assert_eq!((hand.settlement_pieces, hand.city_pieces, hand.building_vp), (4, 3, 3));
    record_knight(&mut hand);
    assert_eq!(hand.knights, 1);
}

#[test]
fn second_settlement_harvests_each_producing_tile() {
    let mut r = Resources::zero();
    let tiles = vec![
        Hex::Land(LandHex::Prod(Resource::Ore, 8)),
        Hex::Land(LandHex::Desert),
        Hex::Land(LandHex::Prod(Resource::Ore, 5)),
        Hex::Water,
    ];
    harvest_second_settlement(&mut r, &tiles);
    assert_eq!(r, Resources::new(0, 0, 2, 0, 0));
}

#[test]
fn take_card_at_follows_the_running_count() {
    let d = Resources::new(0, 2, 0, 1, 3);
    assert_eq!(take_card_at(d, 0), Resources::new(0, 1, 0, 1, 3));
    assert_eq!(take_card_at(d, 1), Resources::new(0, 1, 0, 1, 3));
    assert_eq!(take_card_at(d, 2), Resources::new(0, 2, 0, 0, 3));
    assert_eq!(take_card_at(d, 5), Resources::new(0, 2, 0, 1, 2));
    assert_eq!(take_card_at(d, 6), d);
}

#[test]
fn discard_at_random_keeps_a_bundle_within_the_limit() {
    assert_eq!(discard_at_random(Resources::new(0, -1, 2, 0, 0), 3), Resources::new(0, -1, 2, 0, 0));
}

#[test]
fn settle_handles_long_lists() {
    let mut v: Vec<i8> = vec![1; 2000];
    v[1999] = -128;
    settle(&mut v);
    assert!(v[..128].iter().all(|x| *x == 0));
    assert!(v[128..1999].iter().all(|x| *x == 1));
    assert_eq!(v[1999], 0);
    let mut w: Vec<i8> = vec![1; 2000];
    w[0] = -100;
    settle(&mut w);
    assert_eq!(w.iter().map(|x| *x as i32).sum::<i32>(), 1899);
}

#[test]
fn trade_table_has_120_rows_per_opponent() {
    for n in 1..6usize {
        let table = catan::jsettler::trade_table::get_trade_table(n);
        assert_eq!(table.len(), 120 * (n - 1));
        assert!(table.iter().all(|row| row.len() == 5 + 2 * (n - 1)));
    }
}
