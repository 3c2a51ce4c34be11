use vstd::prelude::*;
use crate::game::phase::{DevelopmentPhase, Phase, TurnPhase};
use crate::state::PlayerId;

verus! {

/// The player a JSettlers game state is about: the player of the turn during
/// a turn, the deciding player otherwise.
pub open spec fn phase_owner(phase: Phase) -> PlayerId {
    match phase {
        Phase::Turn { player, .. } => player,
        _ => phase.decider(),
    }
}

/// The step of the turn, or the start of a turn outside of turns.
pub open spec fn current_turn_phase(phase: Phase) -> TurnPhase {
    match phase {
        Phase::Turn { turn_phase, .. } => turn_phase,
        _ => TurnPhase::PreRoll,
    }
}

/// The state of development cards in the turn, or ready outside of turns.
pub open spec fn current_development_phase(phase: Phase) -> DevelopmentPhase {
    match phase {
        Phase::Turn { development_phase, .. } => development_phase,
        _ => DevelopmentPhase::Ready,
    }
}

/// The phase that a JSettlers game state number puts the game in. Numbers
/// that are not followed leave the turn as it is (outside of a turn, they
/// start one).
pub open spec fn js_phase(phase: Phase, js_state: i32) -> Phase {
    let player = phase_owner(phase);
    let turn_phase = current_turn_phase(phase);
    let development_phase = current_development_phase(phase);
    match js_state {
        5 => Phase::InitialPlacement { player, placing_second: false, placing_road: false },
        6 => Phase::InitialPlacement { player, placing_second: false, placing_road: true },
        10 => Phase::InitialPlacement { player, placing_second: true, placing_road: false },
        11 => Phase::InitialPlacement { player, placing_second: true, placing_road: true },
        15 => Phase::Turn { player, turn_phase: TurnPhase::PreRoll, development_phase },
        20 => Phase::Turn { player, turn_phase: TurnPhase::Free, development_phase },
        33 => Phase::Turn { player, turn_phase: TurnPhase::MoveThief, development_phase },
        40 => Phase::Turn {
            player,
            turn_phase,
            development_phase: DevelopmentPhase::RoadBuildingActive { two_left: true },
        },
        41 => Phase::Turn {
            player,
            turn_phase,
            development_phase: DevelopmentPhase::RoadBuildingActive { two_left: false },
        },
        _ => Phase::Turn { player, turn_phase, development_phase },
    }
}

/// Moves the game to the phase that a JSettlers game state number stands for.
pub fn update_phase(phase: &mut Phase, js_state: i32)
    ensures
        *final(phase) == js_phase(*old(phase), js_state),
        js_state == 5 || js_state == 6 || js_state == 10 || js_state == 11 ==> *final(phase) == (Phase::InitialPlacement {
            player: phase_owner(*old(phase)),
            placing_second: js_state >= 10,
            placing_road: js_state == 6 || js_state == 11,
        }),
{
    proof {
        if js_state == 5 || js_state == 6 || js_state == 10 || js_state == 11 {
            lemma_js_opening_states(*old(phase), js_state);
        }
    }
    let player = if let Phase::Turn { player, turn_phase: _, development_phase: _ } = &*phase {
        *player
    } else {
        phase.player()
    };
    let current_turn_phase = if let Phase::Turn { player: _, turn_phase, development_phase: _ } = &*phase {
        *turn_phase
    } else {
        TurnPhase::PreRoll
    };
    let current_development_phase = if let Phase::Turn { player: _, turn_phase: _, development_phase } = &*phase {
        *development_phase
    } else {
        DevelopmentPhase::Ready
    };
    *phase = match js_state {
        5 => Phase::InitialPlacement { player, placing_second: false, placing_road: false },
        6 => Phase::InitialPlacement { player, placing_second: false, placing_road: true },
        10 => Phase::InitialPlacement { player, placing_second: true, placing_road: false },
        11 => Phase::InitialPlacement { player, placing_second: true, placing_road: true },
        15 => Phase::Turn {
            player,
            turn_phase: TurnPhase::PreRoll,
            development_phase: current_development_phase,
        },
        20 => Phase::Turn {
            player,
            turn_phase: TurnPhase::Free,
            development_phase: current_development_phase,
        },
        33 => Phase::Turn {
            player,
            turn_phase: TurnPhase::MoveThief,
            development_phase: current_development_phase,
        },
        40 => Phase::Turn {
            player,
            turn_phase: current_turn_phase,
            development_phase: DevelopmentPhase::RoadBuildingActive { two_left: true },
        },
        41 => Phase::Turn {
            player,
            turn_phase: current_turn_phase,
            development_phase: DevelopmentPhase::RoadBuildingActive { two_left: false },
        },
        _ => Phase::Turn {
            player,
            turn_phase: current_turn_phase,
            development_phase: current_development_phase,
        },
    };
}

/// A road of road building was placed: one road is left after the first,
/// and the card is spent after the second. Other phases stay as they are.
pub fn set_development_played(phase: &mut Phase)
    ensures
        *final(phase) == (match *old(phase) {
            Phase::Turn {
                player,
                turn_phase,
                development_phase: DevelopmentPhase::RoadBuildingActive { two_left },
            } => Phase::Turn {
                player,
                turn_phase,
                development_phase: if two_left {
                    DevelopmentPhase::RoadBuildingActive { two_left: false }
                } else {
                    DevelopmentPhase::DevelopmentPlayed
                },
            },
            other => other,
        }),
{
    if let Phase::Turn { player, turn_phase, development_phase } = *phase {
        if let DevelopmentPhase::RoadBuildingActive { two_left } = development_phase {
            let next = if two_left {
                DevelopmentPhase::RoadBuildingActive { two_left: false }
            } else {
                DevelopmentPhase::DevelopmentPlayed
            };
            *phase = Phase::Turn { player, turn_phase, development_phase: next };
        }
    }
}

/// A development card was used in the turn.
pub fn mark_development_used(phase: &mut Phase)
    ensures
        *final(phase) == (match *old(phase) {
            Phase::Turn { player, turn_phase, .. } => Phase::Turn {
                player,
                turn_phase,
                development_phase: DevelopmentPhase::DevelopmentPlayed,
            },
            other => other,
        }),
{
    if let Phase::Turn { player, turn_phase, development_phase: _ } = *phase {
        *phase = Phase::Turn { player, turn_phase, development_phase: DevelopmentPhase::DevelopmentPlayed };
    }
}

/// During a turn, `me` is to discard.
pub fn set_discard_phase(phase: &mut Phase, me: PlayerId)
    ensures
        *final(phase) == (match *old(phase) {
            Phase::Turn { player, development_phase, .. } => Phase::Turn {
                player,
                turn_phase: TurnPhase::Discard(me),
                development_phase,
            },
            other => other,
        }),
{
    if let Phase::Turn { player, turn_phase: _, development_phase } = *phase {
        *phase = Phase::Turn { player, turn_phase: TurnPhase::Discard(me), development_phase };
    }
}

/// During a turn, `me` is to answer a trade offer.
pub fn set_trade_supposed(phase: &mut Phase, me: PlayerId)
    ensures
        *final(phase) == (match *old(phase) {
            Phase::Turn { player, development_phase, .. } => Phase::Turn {
                player,
                turn_phase: TurnPhase::TradeSupposed(me),
                development_phase,
            },
            other => other,
        }),
{
    if let Phase::Turn { player, turn_phase: _, development_phase } = *phase {
        *phase = Phase::Turn { player, turn_phase: TurnPhase::TradeSupposed(me), development_phase };
    }
}

/// The turn of `player` begins: before the roll, no card played yet.
pub fn start_player_turn(phase: &mut Phase, player: PlayerId)
    ensures
        *final(phase) == (Phase::Turn {
            player,
            turn_phase: TurnPhase::PreRoll,
            development_phase: DevelopmentPhase::Ready,
        }),
{
    *phase = Phase::Turn { player, turn_phase: TurnPhase::PreRoll, development_phase: DevelopmentPhase::Ready };
}

/// A JSettlers state number keeps the player whom the game is about, and a
/// number that is not followed changes nothing during a turn.
pub proof fn lemma_js_phase_keeps_owner(phase: Phase, js_state: i32)
    ensures
        phase_owner(js_phase(phase, js_state)) == phase_owner(phase),
        phase is Turn && !(js_state == 5 || js_state == 6 || js_state == 10 || js_state == 11
            || js_state == 15 || js_state == 20 || js_state == 33 || js_state == 40
            || js_state == 41) ==> js_phase(phase, js_state) == phase,
{
}

/// The JSettlers states of the opening are its four steps, taken by the
/// player whom the game is about: 5 and 6 place the first settlement and its
/// road, 10 and 11 the second settlement and its road.
pub proof fn lemma_js_opening_states(phase: Phase, js_state: i32)
    requires
        js_state == 5 || js_state == 6 || js_state == 10 || js_state == 11,
    ensures
        js_phase(phase, js_state) == (Phase::InitialPlacement {
            player: phase_owner(phase),
            placing_second: js_state >= 10,
            placing_road: js_state == 6 || js_state == 11,
        }),
{
}

/// The JSettlers states of a turn keep the player whom the game is about:
/// 15 waits for the roll, 20 is the free part of the turn and 33 moves the
/// thief, each keeping the state of development cards; 40 and 41 are road
/// building with two roads or one road left, keeping the step of the turn.
pub proof fn lemma_js_turn_states(phase: Phase, js_state: i32)
    ensures
        js_state == 15 || js_state == 20 || js_state == 33 ==> js_phase(phase, js_state) == (Phase::Turn {
            player: phase_owner(phase),
            turn_phase: if js_state == 15 {
                TurnPhase::PreRoll
            } else if js_state == 20 {
                TurnPhase::Free
            } else {
                TurnPhase::MoveThief
            },
            development_phase: current_development_phase(phase),
        }),
        js_state == 40 || js_state == 41 ==> js_phase(phase, js_state) == (Phase::Turn {
            player: phase_owner(phase),
            turn_phase: current_turn_phase(phase),
            development_phase: DevelopmentPhase::RoadBuildingActive { two_left: js_state == 40 },
        }),
{
}

} // verus!
