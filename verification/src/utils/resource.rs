use vstd::prelude::*;
use vstd::std_specs::convert::TryFromSpecImpl;
use vstd::std_specs::ops::AddSpecImpl;
use vstd::std_specs::ops::NegSpecImpl;
use vstd::std_specs::ops::SubSpecImpl;

verus! {

/// One of the five resources of the game.
#[derive(Copy, Clone, PartialEq, Eq, Structural, Debug)]
pub enum Resource {
    Brick,
    Lumber,
    Ore,
    Grain,
    Wool,
}

impl Resource {
    pub const COUNT: usize = 5;

    pub const ALL: [Resource; 5] = [
        Resource::Brick,
        Resource::Lumber,
        Resource::Ore,
        Resource::Grain,
        Resource::Wool,
    ];

    /// The position of a resource in `Resource::ALL`.
    pub open spec fn index_of(self) -> int {
        match self {
            Resource::Brick => 0,
            Resource::Lumber => 1,
            Resource::Ore => 2,
            Resource::Grain => 3,
            Resource::Wool => 4,
        }
    }

    /// The resource at a position of `Resource::ALL` (positions 0 to 4).
    pub open spec fn at_index(i: int) -> Resource {
        if i == 0 {
            Resource::Brick
        } else if i == 1 {
            Resource::Lumber
        } else if i == 2 {
            Resource::Ore
        } else if i == 3 {
            Resource::Grain
        } else {
            Resource::Wool
        }
    }

    /// The one-letter name a resource is displayed with.
    pub open spec fn letter(self) -> Seq<char> {
        match self {
            Resource::Brick => seq!['B'],
            Resource::Lumber => seq!['L'],
            Resource::Ore => seq!['O'],
            Resource::Grain => seq!['G'],
            Resource::Wool => seq!['W'],
        }
    }

    pub proof fn lemma_index_round_trip(self)
        ensures
            0 <= self.index_of() < 5,
            Resource::at_index(self.index_of()) == self,
    {
    }

    pub fn from_index(i: usize) -> (r: Resource)
        requires
            i < 5,
        ensures
            r == Resource::at_index(i as int),
            r.index_of() == i,
    {
        if i == 0 {
            Resource::Brick
        } else if i == 1 {
            Resource::Lumber
        } else if i == 2 {
            Resource::Ore
        } else if i == 3 {
            Resource::Grain
        } else {
            Resource::Wool
        }
    }

    pub fn to_u8(self) -> (r: u8)
        ensures
            r == self.index_of(),
    {
        match self {
            Resource::Brick => 0,
            Resource::Lumber => 1,
            Resource::Ore => 2,
            Resource::Grain => 3,
            Resource::Wool => 4,
        }
    }

    pub fn to_usize(self) -> (r: usize)
        ensures
            r == self.index_of(),
    {
        match self {
            Resource::Brick => 0,
            Resource::Lumber => 1,
            Resource::Ore => 2,
            Resource::Grain => 3,
            Resource::Wool => 4,
        }
    }

    /// The text a resource is displayed with: its first letter.
    pub fn to_string(&self) -> (r: String)
        ensures
            r@ == self.letter(),
    {
        let s = match self {
            Resource::Brick => "B",
            Resource::Lumber => "L",
            Resource::Ore => "O",
            Resource::Grain => "G",
            Resource::Wool => "W",
        };
        proof {
            reveal_strlit("B");
            reveal_strlit("L");
            reveal_strlit("O");
            reveal_strlit("G");
            reveal_strlit("W");
        }
        String::from_str(s)
    }
}

impl TryFrom<u8> for Resource {
    type Error = ();

    fn try_from(value: u8) -> (r: Result<Resource, ()>) {
        if value >= 5 {
            Err(())
        } else {
            Ok(Resource::from_index(value as usize))
        }
    }
}

impl TryFromSpecImpl<u8> for Resource {
    open spec fn obeys_try_from_spec() -> bool {
        true
    }

    open spec fn try_from_spec(value: u8) -> Result<Resource, ()> {
        if value >= 5 {
            Err(())
        } else {
            Ok(Resource::at_index(value as int))
        }
    }
}

/// A bundle of the five resources, one signed count each.
#[derive(Copy, Clone, PartialEq, Eq, Structural, Debug)]
pub struct Resources {
    pub brick: i8,
    pub lumber: i8,
    pub ore: i8,
    pub grain: i8,
    pub wool: i8,
}

/// Whether an integer fits in an `i8`.
pub open spec fn fits_i8(v: int) -> bool {
    i8::MIN <= v <= i8::MAX
}

impl Resources {
    pub open spec fn spec_new(brick: int, lumber: int, ore: int, grain: int, wool: int) -> Resources {
        Resources {
            brick: brick as i8,
            lumber: lumber as i8,
            ore: ore as i8,
            grain: grain as i8,
            wool: wool as i8,
        }
    }

    /// The count of one resource.
    pub open spec fn get(self, resource: Resource) -> i8 {
        match resource {
            Resource::Brick => self.brick,
            Resource::Lumber => self.lumber,
            Resource::Ore => self.ore,
            Resource::Grain => self.grain,
            Resource::Wool => self.wool,
        }
    }

    /// The bundle with the count of one resource replaced.
    pub open spec fn with(self, resource: Resource, value: i8) -> Resources {
        match resource {
            Resource::Brick => Resources { brick: value, ..self },
            Resource::Lumber => Resources { lumber: value, ..self },
            Resource::Ore => Resources { ore: value, ..self },
            Resource::Grain => Resources { grain: value, ..self },
            Resource::Wool => Resources { wool: value, ..self },
        }
    }

    /// The sum of the five counts.
    pub open spec fn sum(self) -> int {
        self.brick + self.lumber + self.ore + self.grain + self.wool
    }

    /// Some count is positive and some count is negative.
    pub open spec fn is_valid_trade(self) -> bool {
        &&& (self.brick > 0 || self.lumber > 0 || self.ore > 0 || self.grain > 0 || self.wool > 0)
        &&& (self.brick < 0 || self.lumber < 0 || self.ore < 0 || self.grain < 0 || self.wool < 0)
    }

    pub open spec fn add_fits(self, other: Resources) -> bool {
        &&& fits_i8(self.brick + other.brick)
        &&& fits_i8(self.lumber + other.lumber)
        &&& fits_i8(self.ore + other.ore)
        &&& fits_i8(self.grain + other.grain)
        &&& fits_i8(self.wool + other.wool)
    }

    pub open spec fn sub_fits(self, other: Resources) -> bool {
        &&& fits_i8(self.brick - other.brick)
        &&& fits_i8(self.lumber - other.lumber)
        &&& fits_i8(self.ore - other.ore)
        &&& fits_i8(self.grain - other.grain)
        &&& fits_i8(self.wool - other.wool)
    }

    pub open spec fn neg_fits(self) -> bool {
        &&& self.brick != i8::MIN
        &&& self.lumber != i8::MIN
        &&& self.ore != i8::MIN
        &&& self.grain != i8::MIN
        &&& self.wool != i8::MIN
    }

    pub open spec fn plus(self, other: Resources) -> Resources {
        Resources::spec_new(
            self.brick + other.brick,
            self.lumber + other.lumber,
            self.ore + other.ore,
            self.grain + other.grain,
            self.wool + other.wool,
        )
    }

    pub open spec fn minus(self, other: Resources) -> Resources {
        Resources::spec_new(
            self.brick - other.brick,
            self.lumber - other.lumber,
            self.ore - other.ore,
            self.grain - other.grain,
            self.wool - other.wool,
        )
    }

    pub open spec fn negated(self) -> Resources {
        Resources::spec_new(-self.brick, -self.lumber, -self.ore, -self.grain, -self.wool)
    }

    pub open spec fn one(resource: Resource, quantity: i8) -> Resources {
        Resources::spec_new(0, 0, 0, 0, 0).with(resource, quantity)
    }

    pub fn zero() -> (r: Resources)
        ensures
            r == Resources::spec_new(0, 0, 0, 0, 0),
    {
        Resources::new(0, 0, 0, 0, 0)
    }

    /// The cost of a road.
    pub fn road() -> (r: Resources)
        ensures
            r == Resources::spec_new(1, 1, 0, 0, 0),
    {
        Resources::new(1, 1, 0, 0, 0)
    }

    /// The cost of a settlement.
    pub fn settlement() -> (r: Resources)
        ensures
            r == Resources::spec_new(1, 1, 0, 1, 1),
    {
        Resources::new(1, 1, 0, 1, 1)
    }

    /// The cost of a city.
    pub fn city() -> (r: Resources)
        ensures
            r == Resources::spec_new(0, 0, 3, 2, 0),
    {
        Resources::new(0, 0, 3, 2, 0)
    }

    /// The cost of a development card.
    pub fn dvp_card() -> (r: Resources)
        ensures
            r == Resources::spec_new(0, 0, 1, 1, 1),
    {
        Resources::new(0, 0, 1, 1, 1)
    }

    /// What the bank holds when a game starts.
    pub fn starting_bank() -> (r: Resources)
        ensures
            r == Resources::spec_new(19, 19, 19, 19, 19),
    {
        Resources::new(19, 19, 19, 19, 19)
    }

    pub fn new(brick: i8, lumber: i8, ore: i8, grain: i8, wool: i8) -> (r: Self)
        ensures
            r == (Resources { brick, lumber, ore, grain, wool }),
    {
        Resources { brick, lumber, ore, grain, wool }
    }

    pub fn new_one(resource: Resource, quantity: i8) -> (r: Self)
        ensures
            r == Resources::one(resource, quantity),
    {
        match resource {
            Resource::Brick => Resources::new(quantity, 0, 0, 0, 0),
            Resource::Lumber => Resources::new(0, quantity, 0, 0, 0),
            Resource::Ore => Resources::new(0, 0, quantity, 0, 0),
            Resource::Grain => Resources::new(0, 0, 0, quantity, 0),
            Resource::Wool => Resources::new(0, 0, 0, 0, quantity),
        }
    }

    pub fn total(&self) -> (r: i8)
        requires
            fits_i8(self.brick + self.lumber),
            fits_i8(self.brick + self.lumber + self.ore),
            fits_i8(self.brick + self.lumber + self.ore + self.grain),
            fits_i8(self.sum()),
        ensures
            r == self.sum(),
    {
        self.brick + self.lumber + self.ore + self.grain + self.wool
    }

    pub fn valid_trade(&self) -> (r: bool)
        ensures
            r == self.is_valid_trade(),
    {
        let zero = Resources::zero();
        !(*self >= zero) && !(*self <= zero)
    }

    /// Adds `other` to `self`, count by count.
    pub fn add_assign(&mut self, other: Resources)
        requires
            old(self).add_fits(other),
        ensures
            *final(self) == old(self).plus(other),
    {
        self.brick = self.brick + other.brick;
        self.lumber = self.lumber + other.lumber;
        self.ore = self.ore + other.ore;
        self.grain = self.grain + other.grain;
        self.wool = self.wool + other.wool;
    }

    /// Subtracts `other` from `self`, count by count.
    pub fn sub_assign(&mut self, other: Resources)
        requires
            old(self).sub_fits(other),
        ensures
            *final(self) == old(self).minus(other),
    {
        self.brick = self.brick - other.brick;
        self.lumber = self.lumber - other.lumber;
        self.ore = self.ore - other.ore;
        self.grain = self.grain - other.grain;
        self.wool = self.wool - other.wool;
    }

    /// Replaces the count of one resource.
    pub fn set(&mut self, resource: Resource, value: i8)
        ensures
            *final(self) == old(self).with(resource, value),
    {
        match resource {
            Resource::Brick => self.brick = value,
            Resource::Lumber => self.lumber = value,
            Resource::Ore => self.ore = value,
            Resource::Grain => self.grain = value,
            Resource::Wool => self.wool = value,
        }
    }

    /// Replaces the count at a position of `Resource::ALL`.
    pub fn set_at(&mut self, index: usize, value: i8)
        requires
            index < 5,
        ensures
            *final(self) == old(self).with(Resource::at_index(index as int), value),
    {
        match index {
            0 => self.brick = value,
            1 => self.lumber = value,
            2 => self.ore = value,
            3 => self.grain = value,
            _ => self.wool = value,
        }
    }

    /// The count at a position of `Resource::ALL`.
    pub fn get_at(&self, index: usize) -> (r: i8)
        requires
            index < 5,
        ensures
            r == self.get(Resource::at_index(index as int)),
    {
        match index {
            0 => self.brick,
            1 => self.lumber,
            2 => self.ore,
            3 => self.grain,
            _ => self.wool,
        }
    }
}

impl core::ops::Add for Resources {
    type Output = Resources;

    fn add(self, other: Resources) -> (r: Resources)
        ensures
            r == self.plus(other),
    {
        Resources::new(
            self.brick + other.brick,
            self.lumber + other.lumber,
            self.ore + other.ore,
            self.grain + other.grain,
            self.wool + other.wool,
        )
    }
}

impl AddSpecImpl for Resources {
    open spec fn obeys_add_spec() -> bool {
        true
    }

    open spec fn add_req(self, other: Resources) -> bool {
        self.add_fits(other)
    }

    open spec fn add_spec(self, other: Resources) -> Resources {
        self.plus(other)
    }
}

impl core::ops::Sub for Resources {
    type Output = Resources;

    fn sub(self, other: Resources) -> (r: Resources)
        ensures
            r == self.minus(other),
    {
        Resources::new(
            self.brick - other.brick,
            self.lumber - other.lumber,
            self.ore - other.ore,
            self.grain - other.grain,
            self.wool - other.wool,
        )
    }
}

impl SubSpecImpl for Resources {
    open spec fn obeys_sub_spec() -> bool {
        true
    }

    open spec fn sub_req(self, other: Resources) -> bool {
        self.sub_fits(other)
    }

    open spec fn sub_spec(self, other: Resources) -> Resources {
        self.minus(other)
    }
}

impl core::ops::Neg for Resources {
    type Output = Resources;

    fn neg(self) -> (r: Resources)
        ensures
            r == self.negated(),
    {
        Resources::new(-self.brick, -self.lumber, -self.ore, -self.grain, -self.wool)
    }
}

impl NegSpecImpl for Resources {
    open spec fn obeys_neg_spec() -> bool {
        true
    }

    open spec fn neg_req(self) -> bool {
        self.neg_fits()
    }

    open spec fn neg_spec(self) -> Resources {
        self.negated()
    }
}

impl core::ops::Neg for &Resources {
    type Output = Resources;

    fn neg(self) -> (r: Resources)
        ensures
            r == self.negated(),
    {
        Resources::new(-self.brick, -self.lumber, -self.ore, -self.grain, -self.wool)
    }
}

impl NegSpecImpl for &Resources {
    open spec fn obeys_neg_spec() -> bool {
        true
    }

    open spec fn neg_req(self) -> bool {
        self.neg_fits()
    }

    open spec fn neg_spec(self) -> Resources {
        self.negated()
    }
}

impl core::ops::Index<Resource> for Resources {
    type Output = i8;

    fn index(&self, resource: Resource) -> (r: &i8)
        ensures
            *r == self.get(resource),
    {
        match resource {
            Resource::Brick => &self.brick,
            Resource::Lumber => &self.lumber,
            Resource::Ore => &self.ore,
            Resource::Grain => &self.grain,
            Resource::Wool => &self.wool,
        }
    }
}

impl vstd::std_specs::core::IndexSpecImpl<Resource> for Resources {
    open spec fn index_req(&self, resource: &Resource) -> bool {
        true
    }
}

impl core::ops::IndexMut<Resource> for Resources {
    fn index_mut(&mut self, resource: Resource) -> (r: &mut i8)
        ensures
            *r == old(self).get(resource),
            *final(self) == old(self).with(resource, *final(r)),
    {
        match resource {
            Resource::Brick => &mut self.brick,
            Resource::Lumber => &mut self.lumber,
            Resource::Ore => &mut self.ore,
            Resource::Grain => &mut self.grain,
            Resource::Wool => &mut self.wool,
        }
    }
}

impl core::ops::Index<usize> for Resources {
    type Output = i8;

    fn index(&self, index: usize) -> (r: &i8)
        ensures
            *r == self.get(Resource::at_index(index as int)),
    {
        match index {
            0 => &self.brick,
            1 => &self.lumber,
            2 => &self.ore,
            3 => &self.grain,
            _ => &self.wool,
        }
    }
}

impl vstd::std_specs::core::IndexSpecImpl<usize> for Resources {
    open spec fn index_req(&self, index: &usize) -> bool {
        *index < 5
    }
}

} // verus!
