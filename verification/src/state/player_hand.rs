use vstd::prelude::*;
use crate::utils::Harbor;
use crate::utils::resource::{Resource, Resources};
use crate::utils::development_card::DevelopmentCards;

verus! {

/// The harbors a player can trade through, one flag per slot of `Harbor::slot`.
#[derive(Copy, Clone, PartialEq, Eq, Debug)]
pub struct AccessibleHarbor {
    pub harbors: [bool; 6],
}

/// Everything a player holds.
#[derive(Copy, Clone, PartialEq, Debug)]
pub struct PlayerHand {
    pub resources: Resources,
    pub road_pieces: u8,
    pub settlement_pieces: u8,
    pub city_pieces: u8,
    pub building_vp: u8,
    pub knights: u8,
    pub continous_road: u8,
    pub development_cards: DevelopmentCards,
    pub new_development_cards: DevelopmentCards,
    pub harbor: AccessibleHarbor,
    pub harvest_on_roll: [Resources; 11],
    /// (roll, resource, harvest)
    pub blocked_roll: (u8, Resource, i8),
}

impl AccessibleHarbor {
    /// Whether the harbor is accessible (for a harbor other than `Harbor::NoHarbor`).
    pub open spec fn has(self, harbor: Harbor) -> bool {
        self.harbors@[harbor.slot()]
    }

    /// How many of a resource the bank asks for one resource of the player's choice.
    pub open spec fn rate_of(self, resource: Resource) -> u8 {
        if self.has(Harbor::Special(resource)) {
            2
        } else if self.has(Harbor::Generic) {
            3
        } else {
            4
        }
    }

    pub fn new() -> (r: AccessibleHarbor)
        ensures
            forall|i: int| 0 <= i < 6 ==> !#[trigger] r.harbors@[i],
    {
        AccessibleHarbor { harbors: [false; 6] }
    }

    pub fn rate(&self, resource: Resource) -> (r: u8)
        ensures
            r == self.rate_of(resource),
    {
        let mut required: u8 = 4;
        if self[Harbor::Special(resource)] {
            required = 2;
        } else if self[Harbor::Generic] {
            required = 3;
        }
        required
    }

    /// Sets the flag of a harbor other than `Harbor::NoHarbor`.
    pub fn set(&mut self, harbor: Harbor, value: bool)
        requires
            harbor != Harbor::NoHarbor,
        ensures
            final(self).harbors@ == old(self).harbors@.update(harbor.slot(), value),
    {
        let i = harbor.to_usize();
        self.harbors[i] = value;
    }

    /// Sets the flag at a place of the table of harbors.
    pub fn set_at(&mut self, index: usize, value: bool)
        requires
            index < 6,
        ensures
            final(self).harbors@ == old(self).harbors@.update(index as int, value),
    {
        self.harbors[index] = value;
    }

    /// Makes a harbor accessible; `Harbor::NoHarbor` changes nothing.
    pub fn add(&mut self, harbor: Harbor)
        ensures
            harbor == Harbor::NoHarbor ==> *final(self) == *old(self),
            harbor != Harbor::NoHarbor ==> final(self).harbors@ == old(self).harbors@.update(harbor.slot(), true),
    {
        match harbor {
            Harbor::NoHarbor => return,
            _ => (),
        }
        self.set(harbor, true);
    }
}

impl core::ops::Index<Harbor> for AccessibleHarbor {
    type Output = bool;

    fn index(&self, harbor: Harbor) -> (r: &bool)
        ensures
            *r == self.has(harbor),
    {
        &self.harbors[harbor.to_usize()]
    }
}

impl vstd::std_specs::core::IndexSpecImpl<Harbor> for AccessibleHarbor {
    open spec fn index_req(&self, harbor: &Harbor) -> bool {
        *harbor != Harbor::NoHarbor
    }
}

impl core::ops::Index<usize> for AccessibleHarbor {
    type Output = bool;

    fn index(&self, index: usize) -> (r: &bool)
        ensures
            *r == self.harbors@[index as int],
    {
        &self.harbors[index]
    }
}

impl vstd::std_specs::core::IndexSpecImpl<usize> for AccessibleHarbor {
    open spec fn index_req(&self, index: &usize) -> bool {
        *index < 6
    }
}

impl PlayerHand {
    pub fn new() -> (r: PlayerHand)
        ensures
            r.resources == Resources::spec_new(0, 0, 0, 0, 0),
            r.road_pieces == 15,
            r.settlement_pieces == 5,
            r.city_pieces == 4,
            r.building_vp == 0,
            r.knights == 0,
            r.continous_road == 0,
            r.development_cards == DevelopmentCards::spec_zero(),
            r.new_development_cards == DevelopmentCards::spec_zero(),
            forall|i: int| 0 <= i < 6 ==> !#[trigger] r.harbor.harbors@[i],
            forall|i: int| 0 <= i < 11 ==> #[trigger] r.harvest_on_roll@[i] == Resources::spec_new(0, 0, 0, 0, 0),
            r.blocked_roll == (0u8, Resource::Brick, 0i8),
    {
        PlayerHand {
            resources: Resources::zero(),
            road_pieces: 15,
            settlement_pieces: 5,
            city_pieces: 4,
            building_vp: 0,
            knights: 0,
            continous_road: 0,
            development_cards: DevelopmentCards::new(),
            new_development_cards: DevelopmentCards::new(),
            harbor: AccessibleHarbor::new(),
            harvest_on_roll: [Resources::zero(); 11],
            blocked_roll: (0, Resource::Brick, 0),
        }
    }
}

/// Gaining a harbor never makes a trade with the bank dearer, and the bank
/// always asks for two, three or four cards.
pub proof fn lemma_harbor_never_raises_rate(before: AccessibleHarbor, after: AccessibleHarbor, harbor: Harbor, resource: Resource)
    requires
        harbor != Harbor::NoHarbor,
        after.harbors@ == before.harbors@.update(harbor.slot(), true),
    ensures
        after.rate_of(resource) <= before.rate_of(resource),
        2 <= after.rate_of(resource) <= 4,
{
}

} // verus!
