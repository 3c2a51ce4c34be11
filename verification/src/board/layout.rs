use vstd::prelude::*;
use crate::board::coord::Coord;

verus! {

/// The places of a board: its land hexes, its paths and its intersections.
pub struct Layout {
    pub hexes: Vec<Coord>,
    pub paths: Vec<Coord>,
    pub intersections: Vec<Coord>,
}

} // verus!
