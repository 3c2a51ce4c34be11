use vstd::prelude::*;

pub mod coord;
pub mod coord_order;
pub mod topology;
pub mod topology_laws;
pub mod layout;

pub use coord::Coord;
pub use coord::Type as CoordType;
pub use coord::DetailedType as DetailedCoordType;
pub use layout::Layout;

verus! {

/// What can go wrong when asking the board about a coordinate.
#[derive(Copy, Clone, PartialEq, Eq, Structural, Debug)]
pub enum Error {
    /// The coordinate is not of the kind the question is about.
    WrongCoordType { expected: CoordType, received: CoordType },
    /// The board has no such neighbour relation.
    InvalidNeighbourTypes { center: CoordType, neighbours: CoordType },
}

} // verus!
