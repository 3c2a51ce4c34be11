use vstd::prelude::*;
use crate::utils::resource::Resource;

pub mod resource;
pub mod resource_order;
pub mod resource_laws;
pub mod development_card;
pub mod seqs;
pub mod text;

verus! {

/// A marker with no content.
#[derive(Copy, Clone, PartialEq, Eq, Structural, Debug)]
pub struct Empty;

impl Empty {
    /// The one value of the type.
    pub fn instance() -> (r: Empty)
        ensures
            r == Empty,
    {
        Empty
    }
}

/// A tile of the board.
#[derive(Copy, Clone, PartialEq, Eq, Structural, Debug)]
pub enum Hex {
    Water,
    Land(LandHex),
}

/// A land tile: it produces a resource on a dice number, or it is the desert.
#[derive(Copy, Clone, PartialEq, Eq, Structural, Debug)]
pub enum LandHex {
    Prod(Resource, u8),
    Desert,
}

/// A harbor next to an intersection.
#[derive(Copy, Clone, PartialEq, Eq, Structural, Debug)]
pub enum Harbor {
    NoHarbor,
    Generic,
    Special(Resource),
}

impl Hex {
    /// The dice number of a producing tile.
    pub open spec fn num(self) -> Option<u8> {
        match self {
            Hex::Land(LandHex::Prod(_, val)) => Some(val),
            _ => None,
        }
    }

    pub fn get_num(&self) -> (r: Option<u8>)
        ensures
            r == self.num(),
    {
        match self {
            Hex::Land(land) => match land {
                LandHex::Desert => None,
                LandHex::Prod(_, val) => Some(*val),
            },
            _ => None,
        }
    }
}

impl Harbor {
    pub const COUNT: usize = 6;

    /// The slot of a harbor in a table of accessible harbors: the resource's
    /// position for a special harbor, 5 for a generic one, 6 for none.
    pub open spec fn slot(self) -> int {
        match self {
            Harbor::NoHarbor => 6,
            Harbor::Generic => 5,
            Harbor::Special(res) => res.index_of(),
        }
    }

    pub fn to_usize(self) -> (r: usize)
        ensures
            r == self.slot(),
    {
        match self {
            Harbor::NoHarbor => 6,
            Harbor::Generic => 5,
            Harbor::Special(res) => res.to_usize(),
        }
    }
}

} // verus!
