use vstd::prelude::*;
use crate::board::coord::Coord;
use crate::state::PlayerId;
use crate::utils::resource::{Resource, Resources};

verus! {

/// A move of a player.
#[derive(Copy, Clone, PartialEq, Eq, Structural, Debug)]
pub enum Action {
    EndTurn,
    RollDice,
    MoveThief { hex: Coord, victim: PlayerId },
    BuildRoad { path: Coord },
    BuildSettlement { intersection: Coord },
    BuildCity { intersection: Coord },
    TradeBank { given: Resource, asked: Resource },
    TradePlayers { offer: Resources, want: Resources, partner: PlayerId },
    TradePlayersAccept,
    TradePlayersDecline,
    BuyDevelopment,
    DevelopmentKnight,
    DevelopmentRoadBuilding,
    DevelopmentYearOfPlenty { resources: Resources },
    DevelopmentMonopole { resource: Resource },
    Keep { resources: Resources },
    Exit,
    Reset,
}

/// The kind of an action, without its parameters.
#[derive(Copy, Clone, PartialEq, Eq, Structural, Debug)]
pub enum ActionCategory {
    EndTurn,
    RollDice,
    MoveThief,
    BuildRoad,
    BuildSettlement,
    BuildCity,
    TradeBank,
    BuyDevelopment,
    DevelopmentKnight,
    DevelopmentRoadBuilding,
    DevelopmentYearOfPlenty,
    DevelopmentMonopole,
    Keep,
    Exit,
    TradePlayers,
    TradePlayersAccept,
    TradePlayersDecline,
    Reset,
}

impl ActionCategory {
    pub const COUNT: usize = 18;

    /// The place of a kind of action in the list of kinds, from 0.
    pub open spec fn index_of(self) -> int {
        match self {
            ActionCategory::EndTurn => 0,
            ActionCategory::RollDice => 1,
            ActionCategory::MoveThief => 2,
            ActionCategory::BuildRoad => 3,
            ActionCategory::BuildSettlement => 4,
            ActionCategory::BuildCity => 5,
            ActionCategory::TradeBank => 6,
            ActionCategory::BuyDevelopment => 7,
            ActionCategory::DevelopmentKnight => 8,
            ActionCategory::DevelopmentRoadBuilding => 9,
            ActionCategory::DevelopmentYearOfPlenty => 10,
            ActionCategory::DevelopmentMonopole => 11,
            ActionCategory::Keep => 12,
            ActionCategory::Exit => 13,
            ActionCategory::TradePlayers => 14,
            ActionCategory::TradePlayersAccept => 15,
            ActionCategory::TradePlayersDecline => 16,
            ActionCategory::Reset => 17,
        }
    }

    /// The place of a kind of action in the list of kinds, as a number.
    pub fn to_i32(self) -> (r: i32)
        ensures
            r == self.index_of(),
    {
        match self {
            ActionCategory::EndTurn => 0,
            ActionCategory::RollDice => 1,
            ActionCategory::MoveThief => 2,
            ActionCategory::BuildRoad => 3,
            ActionCategory::BuildSettlement => 4,
            ActionCategory::BuildCity => 5,
            ActionCategory::TradeBank => 6,
            ActionCategory::BuyDevelopment => 7,
            ActionCategory::DevelopmentKnight => 8,
            ActionCategory::DevelopmentRoadBuilding => 9,
            ActionCategory::DevelopmentYearOfPlenty => 10,
            ActionCategory::DevelopmentMonopole => 11,
            ActionCategory::Keep => 12,
            ActionCategory::Exit => 13,
            ActionCategory::TradePlayers => 14,
            ActionCategory::TradePlayersAccept => 15,
            ActionCategory::TradePlayersDecline => 16,
            ActionCategory::Reset => 17,
        }
    }
}

impl Action {
    /// The kind of an action: the variant of the same name.
    pub open spec fn category_of(self) -> ActionCategory {
        match self {
            Action::EndTurn => ActionCategory::EndTurn,
            Action::RollDice => ActionCategory::RollDice,
            Action::MoveThief { .. } => ActionCategory::MoveThief,
            Action::BuildRoad { .. } => ActionCategory::BuildRoad,
            Action::BuildSettlement { .. } => ActionCategory::BuildSettlement,
            Action::BuildCity { .. } => ActionCategory::BuildCity,
            Action::TradeBank { .. } => ActionCategory::TradeBank,
            Action::BuyDevelopment => ActionCategory::BuyDevelopment,
            Action::DevelopmentKnight => ActionCategory::DevelopmentKnight,
            Action::DevelopmentRoadBuilding => ActionCategory::DevelopmentRoadBuilding,
            Action::DevelopmentYearOfPlenty { .. } => ActionCategory::DevelopmentYearOfPlenty,
            Action::DevelopmentMonopole { .. } => ActionCategory::DevelopmentMonopole,
            Action::Keep { .. } => ActionCategory::Keep,
            Action::Exit => ActionCategory::Exit,
            Action::TradePlayers { .. } => ActionCategory::TradePlayers,
            Action::TradePlayersAccept => ActionCategory::TradePlayersAccept,
            Action::TradePlayersDecline => ActionCategory::TradePlayersDecline,
            Action::Reset => ActionCategory::Reset,
        }
    }

    pub fn category(&self) -> (r: ActionCategory)
        ensures
            r == self.category_of(),
    {
        match self {
            Action::EndTurn => ActionCategory::EndTurn,
            Action::RollDice => ActionCategory::RollDice,
            Action::MoveThief { hex: _, victim: _ } => ActionCategory::MoveThief,
            Action::BuildRoad { path: _ } => ActionCategory::BuildRoad,
            Action::BuildSettlement { intersection: _ } => ActionCategory::BuildSettlement,
            Action::BuildCity { intersection: _ } => ActionCategory::BuildCity,
            Action::TradeBank { given: _, asked: _ } => ActionCategory::TradeBank,
            Action::BuyDevelopment => ActionCategory::BuyDevelopment,
            Action::DevelopmentKnight => ActionCategory::DevelopmentKnight,
            Action::DevelopmentRoadBuilding => ActionCategory::DevelopmentRoadBuilding,
            Action::DevelopmentYearOfPlenty { resources: _ } => ActionCategory::DevelopmentYearOfPlenty,
            Action::DevelopmentMonopole { resource: _ } => ActionCategory::DevelopmentMonopole,
            Action::Keep { resources: _ } => ActionCategory::Keep,
            Action::Exit => ActionCategory::Exit,
            Action::TradePlayers { offer: _, want: _, partner: _ } => ActionCategory::TradePlayers,
            Action::TradePlayersAccept => ActionCategory::TradePlayersAccept,
            Action::TradePlayersDecline => ActionCategory::TradePlayersDecline,
            Action::Reset => ActionCategory::Reset,
        }
    }
}

} // verus!
