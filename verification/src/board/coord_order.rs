use vstd::prelude::*;
use vstd::std_specs::cmp::PartialOrdSpecImpl;
use std::cmp::Ordering;
use crate::board::coord::Coord;

verus! {

impl Coord {
    /// Coordinates are ordered by row first, then by column.
    pub open spec fn order(self, other: Coord) -> Ordering {
        if self.y < other.y {
            Ordering::Less
        } else if self.y > other.y {
            Ordering::Greater
        } else if self.x < other.x {
            Ordering::Less
        } else if self.x > other.x {
            Ordering::Greater
        } else {
            Ordering::Equal
        }
    }
}

impl PartialOrd for Coord {
    fn partial_cmp(&self, other: &Coord) -> (r: Option<Ordering>) {
        if self.y < other.y {
            Some(Ordering::Less)
        } else if self.y > other.y {
            Some(Ordering::Greater)
        } else if self.x < other.x {
            Some(Ordering::Less)
        } else if self.x > other.x {
            Some(Ordering::Greater)
        } else {
            Some(Ordering::Equal)
        }
    }
}

impl PartialOrdSpecImpl for Coord {
    open spec fn obeys_partial_cmp_spec() -> bool {
        true
    }

    open spec fn partial_cmp_spec(&self, other: &Coord) -> Option<Ordering> {
        Some(self.order(*other))
    }
}

/// Coordinates are totally ordered, row first and column second: exactly one
/// of two coordinates comes first unless they are equal, and the order passes on.
pub proof fn lemma_coord_order_total(a: Coord, b: Coord, c: Coord)
    ensures
        a.order(b) == Ordering::Equal <==> a == b,
        a.order(b) == Ordering::Less <==> b.order(a) == Ordering::Greater,
        a.order(b) == Ordering::Less && b.order(c) == Ordering::Less ==> a.order(c) == Ordering::Less,
{
}

} // verus!
