use catan::game::phase::{DevelopmentPhase, Phase, TurnPhase};
use catan::state::PlayerId;

#[test]
fn test_phase_start_game() {
    let phase = Phase::start_game();
    if let Phase::InitialPlacement { player, placing_second, placing_road } = phase {
        assert_eq!(player, PlayerId::first());
        assert_eq!(placing_second, false);
        assert_eq!(placing_road, false);
    } else {
        panic!("Expected InitialPlacement phase");
    }
}

#[test]
fn test_phase_start_turns() {
    let phase = Phase::start_turns();
    if let Phase::Turn { player, turn_phase, development_phase } = phase {
        assert_eq!(player, PlayerId::first());
        assert_eq!(turn_phase, TurnPhase::PreRoll);
        assert_eq!(development_phase, DevelopmentPhase::Ready);
    } else {
        panic!("Expected Turn phase");
    }
}

#[test]
fn test_phase_player_initial() {
    let phase = Phase::InitialPlacement {
        player: PlayerId::from(2u8),
        placing_second: false,
        placing_road: false,
    };
    assert_eq!(phase.player(), PlayerId::from(2u8));
}

#[test]
fn test_phase_player_turn() {
    let phase = Phase::Turn {
        player: PlayerId::from(1u8),
        turn_phase: TurnPhase::Free,
        development_phase: DevelopmentPhase::Ready,
    };
    assert_eq!(phase.player(), PlayerId::from(1u8));
}

#[test]
fn test_phase_player_discard() {
    let phase = Phase::Turn {
        player: PlayerId::from(0u8),
        turn_phase: TurnPhase::Discard(PlayerId::from(3u8)),
        development_phase: DevelopmentPhase::Ready,
    };
    assert_eq!(phase.player(), PlayerId::from(3u8));
}

#[test]
fn test_phase_player_trade_supposed() {
    let phase = Phase::Turn {
        player: PlayerId::from(0u8),
        turn_phase: TurnPhase::TradeSupposed(PlayerId::from(2u8)),
        development_phase: DevelopmentPhase::Ready,
    };
    assert_eq!(phase.player(), PlayerId::from(2u8));
}

#[test]
fn test_phase_is_turn() {
    let turn_phase = Phase::Turn {
        player: PlayerId::first(),
        turn_phase: TurnPhase::Free,
        development_phase: DevelopmentPhase::Ready,
    };
    assert!(turn_phase.is_turn());

    let initial_phase = Phase::InitialPlacement {
        player: PlayerId::first(),
        placing_second: false,
        placing_road: false,
    };
    assert!(!initial_phase.is_turn());
}

#[test]
fn test_phase_is_thief() {
    let thief_phase = Phase::Turn {
        player: PlayerId::first(),
        turn_phase: TurnPhase::MoveThief,
        development_phase: DevelopmentPhase::Ready,
    };
    assert!(thief_phase.is_thief());

    let knight_phase = Phase::Turn {
        player: PlayerId::first(),
        turn_phase: TurnPhase::Free,
        development_phase: DevelopmentPhase::KnightActive,
    };
    assert!(knight_phase.is_thief());

    let normal_phase = Phase::Turn {
        player: PlayerId::first(),
        turn_phase: TurnPhase::Free,
        development_phase: DevelopmentPhase::Ready,
    };
    assert!(!normal_phase.is_thief());
}

#[test]
fn test_turn_phase_unbound() {
    assert!(TurnPhase::PreRoll.unbound());
    assert!(TurnPhase::Free.unbound());
    assert!(!TurnPhase::MoveThief.unbound());
    assert!(!TurnPhase::Discard(PlayerId::first()).unbound());
    assert!(!TurnPhase::TradeSupposed(PlayerId::first()).unbound());
}

#[test]
fn test_turn_phase_is_discard() {
    assert!(TurnPhase::Discard(PlayerId::first()).is_discard());
    assert!(!TurnPhase::Free.is_discard());
    assert!(!TurnPhase::PreRoll.is_discard());
    assert!(!TurnPhase::MoveThief.is_discard());
    assert!(!TurnPhase::TradeSupposed(PlayerId::first()).is_discard());
}

#[test]
fn test_development_phase_equality() {
    assert_eq!(DevelopmentPhase::Ready, DevelopmentPhase::Ready);
    assert_eq!(DevelopmentPhase::KnightActive, DevelopmentPhase::KnightActive);
    assert_ne!(DevelopmentPhase::Ready, DevelopmentPhase::KnightActive);

    let road1 = DevelopmentPhase::RoadBuildingActive { two_left: true };
    let road2 = DevelopmentPhase::RoadBuildingActive { two_left: true };
    let road3 = DevelopmentPhase::RoadBuildingActive { two_left: false };
    assert_eq!(road1, road2);
    assert_ne!(road1, road3);
}

#[test]
fn phase_player_when_finished_is_the_winner() {
    let phase = Phase::FinishedGame { winner: PlayerId::from(2u8) };
    assert_eq!(phase.player(), PlayerId::from(2u8));
    assert!(!phase.is_turn());
    assert!(!phase.is_thief());
}
