use catan::board::coord::Coord;
use catan::board::layout::Layout;
use catan::game::action::Action;
use catan::player::picker_player::generate_possible_actions_without_state;
use catan::state::PlayerId;
use catan::utils::resource::Resources;

fn small_layout() -> Layout {
    Layout {
        hexes: vec![Coord::new(0, 0), Coord::new(4, 0)],
        paths: vec![Coord::new(2, 0)],
        intersections: vec![Coord::new(0, 1), Coord::new(2, 1)],
    }
}

fn actions(player: u8, count: u8, trade: bool, for_actor: bool) -> Vec<Action> {
    let mut v = vec![Action::Exit];
    generate_possible_actions_without_state(&mut v, PlayerId::from(player), count, &small_layout(), trade, for_actor);
    v
}

#[test]
fn possible_actions_start_with_the_board() {
    let v = actions(1, 3, false, true);
    assert_eq!(v[0], Action::MoveThief { hex: Coord::new(0, 0), victim: PlayerId::from(1u8) });
    assert_eq!(v[1], Action::MoveThief { hex: Coord::new(0, 0), victim: PlayerId::from(2u8) });
    assert_eq!(v[2], Action::MoveThief { hex: Coord::new(0, 0), victim: PlayerId::from(0u8) });
    assert_eq!(v[6], Action::BuildRoad { path: Coord::new(2, 0) });
    assert_eq!(v[7], Action::BuildSettlement { intersection: Coord::new(0, 1) });
    assert_eq!(v[8], Action::BuildCity { intersection: Coord::new(0, 1) });
    assert_eq!(v[11], Action::RollDice);
    assert_eq!(v[12], Action::EndTurn);
    assert!(!v.contains(&Action::Exit));
}

#[test]
fn possible_actions_count_without_trades() {
    // 6 thief moves, 1 road, 4 buildings, 2 turn actions, 20 bank trades,
    // 3 development actions, 15 years of plenty, 5 monopolies, 70 keeps, 2 answers.
    let v = actions(0, 3, false, true);
    assert_eq!(v.len(), 6 + 1 + 4 + 2 + 20 + 3 + 15 + 5 + 70 + 2);
    assert_eq!(*v.last().unwrap(), Action::TradePlayersDecline);
}

#[test]
fn possible_actions_without_trades_come_first() {
    for for_actor in [true, false] {
        let without = actions(2, 4, false, for_actor);
        let with = actions(2, 4, true, for_actor);
        assert!(with.len() > without.len());
        assert_eq!(&with[..without.len()], &without[..]);
        for a in with[without.len()..].iter() {
            assert!(matches!(a, Action::TradePlayers { .. }));
        }
    }
}

#[test]
fn possible_actions_for_the_actor_skip_trading_with_oneself() {
    let with = actions(1, 3, true, true);
    for a in with.iter() {
        if let Action::TradePlayers { partner, .. } = a {
            assert_ne!(*partner, PlayerId::from(1u8));
        }
    }
    let all = actions(1, 3, true, false);
    assert!(all.iter().any(|a| matches!(a, Action::TradePlayers { partner, .. } if *partner == PlayerId::from(1u8))));
}

#[test]
fn possible_bundles_have_the_right_size() {
    let v = actions(0, 2, false, true);
    let mut keeps = 0;
    let mut plenty = 0;
    for a in v.iter() {
        match a {
            Action::Keep { resources } => {
                keeps += 1;
                assert_eq!(resources.total(), 4);
                assert!(*resources >= Resources::zero());
            }
            Action::DevelopmentYearOfPlenty { resources } => {
                plenty += 1;
                assert_eq!(resources.total(), 2);
                assert!(*resources >= Resources::zero());
            }
            _ => {}
        }
    }
    assert_eq!(keeps, 70);
    assert_eq!(plenty, 15);
    for pick in [Resources::new(2, 0, 0, 0, 0), Resources::new(1, 1, 0, 0, 0), Resources::new(0, 0, 0, 0, 2)] {
        assert!(v.contains(&Action::DevelopmentYearOfPlenty { resources: pick }));
    }
    assert!(v.contains(&Action::Keep { resources: Resources::new(4, 0, 0, 0, 0) }));
}

#[test]
fn trade_proposals_go_to_each_opponent_in_turn() {
    let without = actions(0, 4, false, true);
    let with = actions(0, 4, true, true);
    let trades = &with[without.len()..];
    assert_eq!(trades.len(), 120 * 3);
    for (j, a) in trades.iter().enumerate() {
        match a {
            Action::TradePlayers { partner, .. } => assert_eq!(*partner, PlayerId::from((j % 3 + 1) as u8)),
            _ => panic!("expected a trade proposal"),
        }
    }
    assert!(without.iter().all(|a| !matches!(a, Action::TradePlayers { .. })));
}

#[test]
fn possible_actions_of_any_player_without_hexes_or_trades() {
    let layout = Layout { hexes: vec![], paths: vec![Coord::new(2, 0)], intersections: vec![] };
    let mut v = Vec::new();
    generate_possible_actions_without_state(&mut v, PlayerId::from(250u8), 200, &layout, false, true);
    assert_eq!(v.len(), 1 + 2 + 20 + 3 + 15 + 5 + 70 + 2);
    assert!(!v.contains(&Action::Exit) && !v.contains(&Action::Reset));
}
