use catan::game::action::Action;
use catan::game::coherence::{check_coherence, Incoherence};
use catan::game::notification::Notification;
use catan::game::phase::{DevelopmentPhase, Phase, TurnPhase};
use catan::game::play::{interruption_of, notification_after, GameResult};
use catan::history::TurnRecord;
use catan::state::PlayerId;
use catan::utils::resource::{Resource, Resources};

#[test]
fn coherent_when_everything_adds_up() {
    let players = vec![Resources::new(1, 0, 2, 0, 0), Resources::new(0, 3, 0, 0, 1)];
    let bank = Resources::new(18, 16, 17, 19, 18);
    assert_eq!(check_coherence(&players, &bank), Ok(()));
}

#[test]
fn incoherent_player_holding() {
    let players = vec![Resources::new(0, 0, 0, 0, 0), Resources::new(0, 0, -1, 0, 0)];
    let bank = Resources::new(19, 19, 20, 19, 19);
    assert_eq!(
        check_coherence(&players, &bank),
        Err(Incoherence::PlayerHolding { player: PlayerId::from(1u8), amount: -1, resource: Resource::Ore })
    );
}

#[test]
fn incoherent_bank_holding() {
    let players = vec![Resources::new(1, 0, 0, 0, 0)];
    let bank = Resources::new(19, 19, 19, 19, 19);
    assert_eq!(
        check_coherence(&players, &bank),
        Err(Incoherence::BankHolding { resource: Resource::Brick, bank: 19, players: 1 })
    );
}

#[test]
fn exit_and_reset_interrupt_the_game() {
    assert_eq!(interruption_of(Action::Exit), Some(GameResult::Interrupted));
    assert_eq!(interruption_of(Action::Reset), Some(GameResult::Reseted));
    assert_eq!(interruption_of(Action::EndTurn), None);
}

fn turn(player: u8, turn_phase: TurnPhase) -> Phase {
    Phase::Turn { player: PlayerId::from(player), turn_phase, development_phase: DevelopmentPhase::Ready }
}

#[test]
fn notification_after_a_roll_tells_the_harvest() {
    let mut record = TurnRecord::new(2);
    record.set_dice_roll(6);
    record.set_resources_change(PlayerId::from(1u8), Resources::new(0, 1, 0, 0, 0));
    let n = notification_after(&turn(0, TurnPhase::PreRoll), &turn(0, TurnPhase::Free), Action::RollDice, &record, &Vec::new());
    assert_eq!(
        n,
        Some(Notification::ResourcesRolled { roll: 6, resources: vec![Resources::zero(), Resources::new(0, 1, 0, 0, 0)] })
    );
}

#[test]
fn notification_after_discards_waits_for_the_last() {
    let record = TurnRecord::new(2);
    let discards = vec![(PlayerId::from(1u8), Some(Resources::new(2, 0, 0, 0, 0)))];
    let keep = Action::Keep { resources: Resources::new(1, 1, 1, 1, 0) };
    let still = notification_after(
        &turn(0, TurnPhase::Discard(PlayerId::from(1u8))),
        &turn(0, TurnPhase::Discard(PlayerId::from(0u8))),
        keep,
        &record,
        &discards,
    );
    assert_eq!(still, None);
    let done = notification_after(
        &turn(0, TurnPhase::Discard(PlayerId::from(0u8))),
        &turn(0, TurnPhase::MoveThief),
        keep,
        &record,
        &discards,
    );
    assert_eq!(done, Some(Notification::Discards { discards }));
}

#[test]
fn notification_after_other_moves() {
    let record = TurnRecord::new(2);
    let none = Vec::new();
    let answer = turn(0, TurnPhase::TradeSupposed(PlayerId::from(1u8)));
    assert_eq!(
        notification_after(&answer, &turn(0, TurnPhase::Free), Action::TradePlayersAccept, &record, &none),
        Some(Notification::TradeAccepted)
    );
    assert_eq!(
        notification_after(&answer, &turn(0, TurnPhase::Free), Action::TradePlayersDecline, &record, &none),
        Some(Notification::TradeDeclined)
    );
    assert_eq!(
        notification_after(&answer, &turn(0, TurnPhase::Free), Action::EndTurn, &record, &none),
        Some(Notification::ActionPlayed { by: PlayerId::from(1u8), action: Action::EndTurn })
    );
}

#[test]
fn coherent_at_the_start_of_a_game() {
    let players = vec![Resources::zero(); 4];
    assert_eq!(check_coherence(&players, &Resources::starting_bank()), Ok(()));
}
