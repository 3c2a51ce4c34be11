use vstd::prelude::*;
use crate::utils::resource::fits_i8;

verus! {

/// A kind of development card.
#[derive(Copy, Clone, PartialEq, Eq, Structural, Debug)]
pub enum DevelopmentCard {
    Knight,
    RoadBuilding,
    YearOfPlenty,
    Monopole,
    VictoryPoint,
}

impl DevelopmentCard {
    pub const COUNT: usize = 5;

    pub const ALL: [DevelopmentCard; 5] = [
        DevelopmentCard::Knight,
        DevelopmentCard::RoadBuilding,
        DevelopmentCard::YearOfPlenty,
        DevelopmentCard::Monopole,
        DevelopmentCard::VictoryPoint,
    ];

    /// The position of a card kind in `DevelopmentCard::ALL`.
    pub open spec fn index_of(self) -> int {
        match self {
            DevelopmentCard::Knight => 0,
            DevelopmentCard::RoadBuilding => 1,
            DevelopmentCard::YearOfPlenty => 2,
            DevelopmentCard::Monopole => 3,
            DevelopmentCard::VictoryPoint => 4,
        }
    }

    pub fn to_u8(self) -> (r: u8)
        ensures
            r == self.index_of(),
    {
        match self {
            DevelopmentCard::Knight => 0,
            DevelopmentCard::RoadBuilding => 1,
            DevelopmentCard::YearOfPlenty => 2,
            DevelopmentCard::Monopole => 3,
            DevelopmentCard::VictoryPoint => 4,
        }
    }

    pub fn to_usize(self) -> (r: usize)
        ensures
            r == self.index_of(),
    {
        match self {
            DevelopmentCard::Knight => 0,
            DevelopmentCard::RoadBuilding => 1,
            DevelopmentCard::YearOfPlenty => 2,
            DevelopmentCard::Monopole => 3,
            DevelopmentCard::VictoryPoint => 4,
        }
    }
}

/// A count of development cards of each kind.
#[derive(Copy, Clone, PartialEq, Eq, Structural, Debug)]
pub struct DevelopmentCards {
    pub knight: i8,
    pub road_building: i8,
    pub year_of_plenty: i8,
    pub monopole: i8,
    pub victory_point: i8,
}

impl DevelopmentCards {
    pub open spec fn spec_zero() -> DevelopmentCards {
        DevelopmentCards { knight: 0, road_building: 0, year_of_plenty: 0, monopole: 0, victory_point: 0 }
    }

    /// The count of one kind.
    pub open spec fn get(self, card: DevelopmentCard) -> i8 {
        match card {
            DevelopmentCard::Knight => self.knight,
            DevelopmentCard::RoadBuilding => self.road_building,
            DevelopmentCard::YearOfPlenty => self.year_of_plenty,
            DevelopmentCard::Monopole => self.monopole,
            DevelopmentCard::VictoryPoint => self.victory_point,
        }
    }

    /// The counts with the count of one kind replaced.
    pub open spec fn with(self, card: DevelopmentCard, value: i8) -> DevelopmentCards {
        match card {
            DevelopmentCard::Knight => DevelopmentCards { knight: value, ..self },
            DevelopmentCard::RoadBuilding => DevelopmentCards { road_building: value, ..self },
            DevelopmentCard::YearOfPlenty => DevelopmentCards { year_of_plenty: value, ..self },
            DevelopmentCard::Monopole => DevelopmentCards { monopole: value, ..self },
            DevelopmentCard::VictoryPoint => DevelopmentCards { victory_point: value, ..self },
        }
    }

    /// The sum of the five counts.
    pub open spec fn sum(self) -> int {
        self.knight + self.road_building + self.year_of_plenty + self.monopole + self.victory_point
    }

    pub open spec fn add_fits(self, other: DevelopmentCards) -> bool {
        &&& fits_i8(self.knight + other.knight)
        &&& fits_i8(self.road_building + other.road_building)
        &&& fits_i8(self.year_of_plenty + other.year_of_plenty)
        &&& fits_i8(self.monopole + other.monopole)
        &&& fits_i8(self.victory_point + other.victory_point)
    }

    pub open spec fn plus(self, other: DevelopmentCards) -> DevelopmentCards {
        DevelopmentCards {
            knight: (self.knight + other.knight) as i8,
            road_building: (self.road_building + other.road_building) as i8,
            year_of_plenty: (self.year_of_plenty + other.year_of_plenty) as i8,
            monopole: (self.monopole + other.monopole) as i8,
            victory_point: (self.victory_point + other.victory_point) as i8,
        }
    }

    pub fn new() -> (r: DevelopmentCards)
        ensures
            r == DevelopmentCards::spec_zero(),
    {
        DevelopmentCards { knight: 0, road_building: 0, year_of_plenty: 0, monopole: 0, victory_point: 0 }
    }

    /// The number of cards, read back as a byte.
    pub fn total(&self) -> (r: u8)
        requires
            fits_i8(self.knight + self.road_building),
            fits_i8(self.knight + self.road_building + self.year_of_plenty),
            fits_i8(self.knight + self.road_building + self.year_of_plenty + self.monopole),
            fits_i8(self.sum()),
        ensures
            r == self.sum() as u8,
    {
        let sum: i8 = self.knight + self.road_building + self.year_of_plenty + self.monopole + self.victory_point;
        sum as u8
    }

    pub fn clear(&mut self)
        ensures
            *final(self) == DevelopmentCards::spec_zero(),
    {
        self.knight = 0;
        self.road_building = 0;
        self.year_of_plenty = 0;
        self.monopole = 0;
        self.victory_point = 0;
    }

    /// Adds `other` to `self`, kind by kind.
    pub fn add_assign(&mut self, other: DevelopmentCards)
        requires
            old(self).add_fits(other),
        ensures
            *final(self) == old(self).plus(other),
    {
        self.knight = self.knight + other.knight;
        self.road_building = self.road_building + other.road_building;
        self.year_of_plenty = self.year_of_plenty + other.year_of_plenty;
        self.monopole = self.monopole + other.monopole;
        self.victory_point = self.victory_point + other.victory_point;
    }

    /// Replaces the count of one kind.
    pub fn set(&mut self, card: DevelopmentCard, value: i8)
        ensures
            *final(self) == old(self).with(card, value),
    {
        match card {
            DevelopmentCard::Knight => self.knight = value,
            DevelopmentCard::RoadBuilding => self.road_building = value,
            DevelopmentCard::YearOfPlenty => self.year_of_plenty = value,
            DevelopmentCard::Monopole => self.monopole = value,
            DevelopmentCard::VictoryPoint => self.victory_point = value,
        }
    }
}

impl core::ops::Index<DevelopmentCard> for DevelopmentCards {
    type Output = i8;

    fn index(&self, card: DevelopmentCard) -> (r: &i8)
        ensures
            *r == self.get(card),
    {
        match card {
            DevelopmentCard::Knight => &self.knight,
            DevelopmentCard::RoadBuilding => &self.road_building,
            DevelopmentCard::YearOfPlenty => &self.year_of_plenty,
            DevelopmentCard::Monopole => &self.monopole,
            DevelopmentCard::VictoryPoint => &self.victory_point,
        }
    }
}

impl vstd::std_specs::core::IndexSpecImpl<DevelopmentCard> for DevelopmentCards {
    open spec fn index_req(&self, card: &DevelopmentCard) -> bool {
        true
    }
}

impl core::ops::IndexMut<DevelopmentCard> for DevelopmentCards {
    fn index_mut(&mut self, card: DevelopmentCard) -> (r: &mut i8)
        ensures
            *r == old(self).get(card),
            *final(self) == old(self).with(card, *final(r)),
    {
        match card {
            DevelopmentCard::Knight => &mut self.knight,
            DevelopmentCard::RoadBuilding => &mut self.road_building,
            DevelopmentCard::YearOfPlenty => &mut self.year_of_plenty,
            DevelopmentCard::Monopole => &mut self.monopole,
            DevelopmentCard::VictoryPoint => &mut self.victory_point,
        }
    }
}

} // verus!
