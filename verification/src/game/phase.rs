use vstd::prelude::*;
use crate::state::PlayerId;

verus! {

/// Where a game stands.
#[derive(Copy, Clone, Debug, PartialEq, Eq, Structural)]
pub enum Phase {
    InitialPlacement { player: PlayerId, placing_second: bool, placing_road: bool },
    Turn { player: PlayerId, turn_phase: TurnPhase, development_phase: DevelopmentPhase },
    FinishedGame { winner: PlayerId },
}

/// Where a turn stands.
#[derive(Copy, Clone, Debug, PartialEq, Eq, Structural)]
pub enum TurnPhase {
    PreRoll,
    Discard(PlayerId),
    MoveThief,
    Free,
    TradeSupposed(PlayerId),
}

/// Where the development card played in a turn stands.
#[derive(Copy, Clone, Debug, PartialEq, Eq, Structural)]
pub enum DevelopmentPhase {
    Ready,
    KnightActive,
    RoadBuildingActive { two_left: bool },
    DevelopmentPlayed,
}

impl Phase {
    /// The player who is to decide: the placing player, the discarding or
    /// trade-answering player when there is one, the player of the turn
    /// otherwise, or the winner.
    pub open spec fn decider(self) -> PlayerId {
        match self {
            Phase::InitialPlacement { player, .. } => player,
            Phase::Turn { turn_phase: TurnPhase::Discard(p), .. } => p,
            Phase::Turn { turn_phase: TurnPhase::TradeSupposed(p), .. } => p,
            Phase::Turn { player, .. } => player,
            Phase::FinishedGame { winner } => winner,
        }
    }

    /// The phase a game starts in.
    pub fn start_game() -> (r: Phase)
        ensures
            r == (Phase::InitialPlacement { player: PlayerId(0), placing_second: false, placing_road: false }),
    {
        Phase::InitialPlacement { player: PlayerId::first(), placing_second: false, placing_road: false }
    }

    /// The phase the first turn starts in.
    pub fn start_turns() -> (r: Phase)
        ensures
            r == (Phase::Turn {
                player: PlayerId(0),
                turn_phase: TurnPhase::PreRoll,
                development_phase: DevelopmentPhase::Ready,
            }),
    {
        Phase::Turn {
            player: PlayerId::first(),
            turn_phase: TurnPhase::PreRoll,
            development_phase: DevelopmentPhase::Ready,
        }
    }

    pub fn player(&self) -> (r: PlayerId)
        ensures
            r == self.decider(),
    {
        match self {
            Phase::InitialPlacement { player, placing_second: _, placing_road: _ } => *player,
            Phase::Turn { player: _, turn_phase: TurnPhase::Discard(player), development_phase: _ } => *player,
            Phase::Turn { player: _, turn_phase: TurnPhase::TradeSupposed(player), development_phase: _ } => *player,
            Phase::Turn { player, turn_phase: _, development_phase: _ } => *player,
            Phase::FinishedGame { winner } => *winner,
        }
    }

    pub fn is_turn(&self) -> (r: bool)
        ensures
            r == (*self is Turn),
    {
        if let Phase::Turn { player: _, turn_phase: _, development_phase: _ } = self {
            true
        } else {
            false
        }
    }

    /// The thief is to be moved: after a seven, or by a knight.
    pub fn is_thief(&self) -> (r: bool)
        ensures
            r == (*self matches Phase::Turn { turn_phase, development_phase, .. }
                && (turn_phase == TurnPhase::MoveThief || development_phase == DevelopmentPhase::KnightActive)),
    {
        if let Phase::Turn { player: _, turn_phase, development_phase } = self {
            *turn_phase == TurnPhase::MoveThief || *development_phase == DevelopmentPhase::KnightActive
        } else {
            false
        }
    }
}

impl TurnPhase {
    /// The player of the turn may act freely.
    pub fn unbound(&self) -> (r: bool)
        ensures
            r == (*self == TurnPhase::PreRoll || *self == TurnPhase::Free),
    {
        match *self {
            TurnPhase::PreRoll | TurnPhase::Free => true,
            _ => false,
        }
    }

    pub fn is_discard(&self) -> (r: bool)
        ensures
            r == (*self is Discard),
    {
        match *self {
            TurnPhase::Discard(_) => true,
            _ => false,
        }
    }
}

} // verus!
