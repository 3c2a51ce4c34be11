use vstd::prelude::*;
use crate::game::action::Action;
use crate::game::notification::Notification;
use crate::game::phase::{Phase, TurnPhase};
use crate::history::TurnRecord;
use crate::state::PlayerId;
use crate::utils::resource::Resources;

verus! {

/// How a game ended.
#[derive(Copy, Clone, PartialEq, Eq, Structural, Debug)]
pub enum GameResult {
    Finished { winner: PlayerId },
    Interrupted,
    Reseted,
}

/// A player asked to stop or to start over instead of moving.
pub open spec fn interruption(action: Action) -> Option<GameResult> {
    match action {
        Action::Exit => Some(GameResult::Interrupted),
        Action::Reset => Some(GameResult::Reseted),
        _ => None,
    }
}

/// Whether the game stops on the action a player picked, and with what result.
pub fn interruption_of(action: Action) -> (r: Option<GameResult>)
    ensures
        r == interruption(action),
{
    match action {
        Action::Exit => Some(GameResult::Interrupted),
        Action::Reset => Some(GameResult::Reseted),
        _ => None,
    }
}

/// The phase is the discarding after a seven.
pub open spec fn discarding(phase: Phase) -> bool {
    phase matches Phase::Turn { turn_phase: TurnPhase::Discard(_), .. }
}

/// Which notification the players get after a move: the roll and the harvest
/// after a dice roll; after the discards, all of them at once and only when
/// the last one is done; the answer to a trade; otherwise the move itself and
/// who made it.
pub open spec fn notification_kind(prev_phase: Phase, phase: Phase, action: Action) -> int {
    if action == Action::RollDice {
        0
    } else if discarding(prev_phase) {
        if discarding(phase) { 1 } else { 2 }
    } else if action == Action::TradePlayersAccept {
        3
    } else if action == Action::TradePlayersDecline {
        4
    } else {
        5
    }
}

fn copy_resources(v: &Vec<Resources>) -> (r: Vec<Resources>)
    ensures
        r@ == v@,
{
    let mut out: Vec<Resources> = Vec::new();
    let mut i: usize = 0;
    while i < v.len()
        invariant
            i <= v.len(),
            out@ == v@.take(i as int),
        decreases v.len() - i,
    {
        out.push(v[i]);
        proof {
            assert(out@ =~= v@.take(i + 1));
        }
        i = i + 1;
    }
    proof {
        assert(v@.take(i as int) =~= v@);
    }
    out
}

fn copy_discards(v: &Vec<(PlayerId, Option<Resources>)>) -> (r: Vec<(PlayerId, Option<Resources>)>)
    ensures
        r@ == v@,
{
    let mut out: Vec<(PlayerId, Option<Resources>)> = Vec::new();
    let mut i: usize = 0;
    while i < v.len()
        invariant
            i <= v.len(),
            out@ == v@.take(i as int),
        decreases v.len() - i,
    {
        let (p, r) = v[i];
        out.push((p, r));
        proof {
            assert(out@ =~= v@.take(i + 1));
        }
        i = i + 1;
    }
    proof {
        assert(v@.take(i as int) =~= v@);
    }
    out
}

/// The notification the players get after `action` took the game from
/// `prev_phase` to `phase`; `record` describes the move and `discards` are the
/// discards pending before it.
pub fn notification_after(
    prev_phase: &Phase,
    phase: &Phase,
    action: Action,
    record: &TurnRecord,
    discards: &Vec<(PlayerId, Option<Resources>)>,
) -> (r: Option<Notification>)
    requires
        action == Action::RollDice ==> record.dice_roll is Some,
    ensures
        notification_kind(*prev_phase, *phase, action) == 0 ==> (r matches Some(Notification::ResourcesRolled { roll, resources })
            && roll == record.dice_roll->Some_0 && resources@ == record.resource_changes@),
        notification_kind(*prev_phase, *phase, action) == 1 ==> r is None,
        notification_kind(*prev_phase, *phase, action) == 2 ==> (r matches Some(Notification::Discards { discards: d })
            && d@ == discards@),
        notification_kind(*prev_phase, *phase, action) == 3 ==> r == Some(Notification::TradeAccepted),
        notification_kind(*prev_phase, *phase, action) == 4 ==> r == Some(Notification::TradeDeclined),
        notification_kind(*prev_phase, *phase, action) == 5 ==> r == Some(Notification::ActionPlayed { by: prev_phase.decider(), action }),
{
    let prev_player = prev_phase.player();
    if action == Action::RollDice {
        let roll = match record.dice_roll {
            Some(roll) => roll,
            None => 0,
        };
        Some(Notification::ResourcesRolled { roll, resources: copy_resources(&record.resource_changes) })
    } else if matches!(prev_phase, Phase::Turn { turn_phase: TurnPhase::Discard(_), .. }) {
        if !matches!(phase, Phase::Turn { turn_phase: TurnPhase::Discard(_), .. }) {
            Some(Notification::Discards { discards: copy_discards(discards) })
        } else {
            None
        }
    } else if action == Action::TradePlayersAccept {
        Some(Notification::TradeAccepted)
    } else if action == Action::TradePlayersDecline {
        Some(Notification::TradeDeclined)
    } else {
        Some(Notification::ActionPlayed { by: prev_player, action })
    }
}

} // verus!
