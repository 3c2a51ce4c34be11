use vstd::prelude::*;
use crate::game::action::Action;
use crate::state::PlayerId;
use crate::utils::resource::Resources;

verus! {

/// What every player is told after a move.
#[derive(Clone, Debug, PartialEq)]
pub enum Notification {
    ActionPlayed { by: PlayerId, action: Action },
    ResourcesRolled { roll: u8, resources: Vec<Resources> },
    /// All the discards after a seven, told at once.
    Discards { discards: Vec<(PlayerId, Option<Resources>)> },
    TradeAccepted,
    TradeDeclined,
    GameFinished { winner: PlayerId },
    ThiefRolled,
    InitialPlacementFinished,
}

} // verus!
