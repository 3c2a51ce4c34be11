use catan::board::coord::Coord;
use catan::game::action::Action;
use catan::game::phase::Phase;
use catan::history::detailed_id_game_history::DetailedIdGameHistory;
use catan::history::{GameHistoryTrait, GameMetadata, TurnRecord};
use catan::state::PlayerId;
use catan::utils::development_card::DevelopmentCard;
use catan::utils::resource::Resources;

fn table() -> Vec<Action> {
    vec![
        Action::RollDice,
        Action::EndTurn,
        Action::BuyDevelopment,
        Action::MoveThief { hex: Coord::new(0, 0), victim: PlayerId::from(1u8) },
        Action::DevelopmentMonopole { resource: catan::utils::resource::Resource::Ore },
        Action::RollDice,
    ]
}

fn record(player: u8, action: Action) -> TurnRecord {
    let mut r = TurnRecord::new(3);
    r.set_player_id(PlayerId::from(player));
    r.set_action(action);
    r
}

#[test]
fn turn_record_new_is_blank() {
    let r = TurnRecord::new(4);
    assert_eq!(r.player_id, PlayerId::none());
    assert_eq!(r.action, None);
    assert_eq!(r.phase, Phase::start_game());
    assert_eq!(r.dice_roll, None);
    assert_eq!(r.resource_changes, vec![Resources::zero(); 4]);
    assert_eq!(r.development_card, None);
}

#[test]
fn turn_record_setters() {
    let mut r = TurnRecord::new(2);
    r.set_dice_roll(8);
    r.set_knight_pos(Coord::new(4, 0));
    r.set_build_pos(Coord::new(0, 1));
    r.set_development_card(DevelopmentCard::Monopole);
    r.set_new_longest_road(PlayerId::from(1u8));
    r.set_new_largest_army(PlayerId::from(0u8));
    r.set_phase(Phase::start_turns());
    r.set_resources_change(PlayerId::from(1u8), Resources::new(1, 0, 0, 0, -1));
    assert_eq!(r.dice_roll, Some(8));
    assert_eq!(r.knight_pos, Some(Coord::new(4, 0)));
    assert_eq!(r.build_pos, Some(Coord::new(0, 1)));
    assert_eq!(r.development_card, Some(DevelopmentCard::Monopole));
    assert_eq!(r.new_longest_road, Some(PlayerId::from(1u8)));
    assert_eq!(r.new_largest_army, Some(PlayerId::from(0u8)));
    assert_eq!(r.phase, Phase::start_turns());
    assert_eq!(r.resource_changes, vec![Resources::zero(), Resources::new(1, 0, 0, 0, -1)]);
    r.set_resources_change_all(vec![Resources::new(2, 0, 0, 0, 0)]);
    assert_eq!(r.resource_changes, vec![Resources::new(2, 0, 0, 0, 0)]);
}

#[test]
fn turn_record_discards_are_taken_away() {
    let mut r = TurnRecord::new(3);
    let discards = vec![
        (PlayerId::from(0u8), Some(Resources::new(1, 1, 0, 0, 0))),
        (PlayerId::from(2u8), None),
        (PlayerId::from(0u8), Some(Resources::new(0, 0, 2, 0, 0))),
    ];
    r.set_discards_change(&discards);
    assert_eq!(
        r.resource_changes,
        vec![Resources::new(0, 0, -2, 0, 0), Resources::zero(), Resources::zero()]
    );
}

#[test]
fn history_counts_moves_by_kind() {
    let t = table();
    let mut h = DetailedIdGameHistory::new();
    h.set_metadata(GameMetadata { player_count: 3, seed: 42 });
    h.push_turn_record(record(0, Action::RollDice), &t);
    h.push_turn_record(record(1, Action::BuyDevelopment), &t);
    h.push_turn_record(record(0, Action::MoveThief { hex: Coord::new(0, 0), victim: PlayerId::from(1u8) }), &t);
    h.push_turn_record(record(2, Action::RollDice), &t);
    h.push_turn_record(record(0, Action::DevelopmentMonopole { resource: catan::utils::resource::Resource::Ore }), &t);
    h.set_winner(PlayerId::from(2u8));

    assert_eq!(h.player_count(), 3);
    assert_eq!(h.history_len(), 5);
    assert_eq!(h.get_winner(), Some(PlayerId::from(2u8)));
    assert_eq!(h.get_turns_of_player(PlayerId::from(0u8)), vec![0, 2, 4]);
    assert_eq!(h.get_turns_of_player(PlayerId::from(1u8)), vec![1]);
    assert_eq!(h.get_development_turn(0), Some(1));
    assert_eq!(h.get_development_turn(1), None);
    assert_eq!(h.get_thief_turn(0), Some(2));
    assert_eq!(h.get_monopole_turn(0), Some(4));

    let s = h.get_summary();
    assert_eq!(s.total_turns, 5);
    assert_eq!(s.total_dice_rolls, 2);
    assert_eq!(s.dev_turns, 1);
    assert_eq!(s.mthief_turns, 1);
    assert_eq!(s.monopoly_turns, 1);
    assert_eq!(s.winner, 2);
}

#[test]
fn history_summary_without_winner() {
    let h = DetailedIdGameHistory::new();
    let s = h.get_summary();
    assert_eq!(s.total_turns, 0);
    assert_eq!(s.winner, usize::MAX);
    assert_eq!(GameMetadata::default(), GameMetadata { player_count: 0, seed: 0 });
}
