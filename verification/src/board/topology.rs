use vstd::prelude::*;
use crate::board::Error;
use crate::board::coord::{Coord, DetailedType, Type};
use crate::utils::resource::fits_i8;

verus! {

pub type TopologyResult = Result<Vec<Coord>, Error>;

/// A neighbour query seen through the view of its list of coordinates.
pub open spec fn view_result(r: TopologyResult) -> Result<Seq<Coord>, Error> {
    match r {
        Ok(v) => Ok(v@),
        Err(e) => Err(e),
    }
}

/// The offsets from a coordinate to its neighbours of a kind, in the order
/// they are listed, for the position of the coordinate in the grid pattern.
pub open spec fn neighbour_offsets(d: DetailedType, n: Type) -> Option<Seq<(int, int)>> {
    match (d, n) {
        (DetailedType::OHex, Type::Hex) => Some(seq![(4, 0), (2, 2), (-2, 2), (-4, 0), (-2, -2), (2, -2)]),
        (DetailedType::OHex, Type::Path) => Some(seq![(2, 0), (1, 1), (-1, 1), (-2, 0), (-1, -1), (1, -1)]),
        (DetailedType::OHex, Type::Intersection) => Some(seq![(2, 1), (0, 1), (-2, 1), (-2, -1), (0, -1), (2, -1)]),
        (DetailedType::IPath, Type::Hex) => Some(seq![(2, 0), (-2, 0)]),
        (DetailedType::SPath, Type::Hex) => Some(seq![(1, 1), (-1, -1)]),
        (DetailedType::ZPath, Type::Hex) => Some(seq![(-1, 1), (1, -1)]),
        (DetailedType::IPath, Type::Path) => Some(seq![(1, 1), (-1, 1), (-1, -1), (1, -1)]),
        (DetailedType::SPath, Type::Path) => Some(seq![(2, 0), (-1, 1), (-2, 0), (1, -1)]),
        (DetailedType::ZPath, Type::Path) => Some(seq![(2, 0), (1, 1), (-2, 0), (-1, -1)]),
        (DetailedType::IPath, Type::Intersection) => Some(seq![(0, 1), (0, -1)]),
        (DetailedType::SPath, Type::Intersection) => Some(seq![(1, 0), (-1, 0)]),
        (DetailedType::ZPath, Type::Intersection) => Some(seq![(1, 0), (-1, 0)]),
        (DetailedType::AIntersection, Type::Hex) => Some(seq![(2, 1), (-2, 1), (0, -1)]),
        (DetailedType::VIntersection, Type::Hex) => Some(seq![(0, 1), (-2, -1), (2, -1)]),
        (DetailedType::AIntersection, Type::Path) => Some(seq![(1, 0), (0, 1), (-1, 0)]),
        (DetailedType::VIntersection, Type::Path) => Some(seq![(1, 0), (-1, 0), (0, -1)]),
        (DetailedType::AIntersection, Type::Intersection) => Some(seq![(2, 0), (0, 2), (-2, 0)]),
        (DetailedType::VIntersection, Type::Intersection) => Some(seq![(2, 0), (-2, 0), (0, -2)]),
        _ => None,
    }
}

/// The coordinates at the given offsets from `coord`.
pub open spec fn shifted(coord: Coord, offsets: Seq<(int, int)>) -> Seq<Coord> {
    offsets.map_values(|o: (int, int)| Coord::at(coord.x + o.0, coord.y + o.1))
}

/// Every coordinate at the given offsets from `coord` fits in bytes.
pub open spec fn offsets_fit(coord: Coord, offsets: Seq<(int, int)>) -> bool {
    forall|i: int| 0 <= i < offsets.len() ==>
        fits_i8(coord.x + (#[trigger] offsets[i]).0) && fits_i8(coord.y + offsets[i].1)
}

/// The answer to "which places of kind `n` touch the place `coord` of kind `center`".
pub open spec fn neighbours_of(coord: Coord, center: Type, n: Type) -> Result<Seq<Coord>, Error> {
    if coord.type_of() != center {
        Err(Error::WrongCoordType { expected: center, received: coord.type_of() })
    } else {
        match neighbour_offsets(coord.detailed_type_of(), n) {
            Some(offsets) => Ok(shifted(coord, offsets)),
            None => Err(Error::InvalidNeighbourTypes { center, neighbours: n }),
        }
    }
}

/// The question can be answered without any byte overflowing.
pub open spec fn neighbours_defined(coord: Coord, center: Type, n: Type) -> bool {
    &&& coord.hashable()
    &&& coord.type_of() == center ==> match neighbour_offsets(coord.detailed_type_of(), n) {
        Some(offsets) => offsets_fit(coord, offsets),
        None => true,
    }
}

pub trait RawTopology {
    fn neighbours(&self, coord: Coord, center_type: Type, neighbour_type: Type) -> (r: TopologyResult)
        requires
            neighbours_defined(coord, center_type, neighbour_type),
        ensures
            view_result(r) == neighbours_of(coord, center_type, neighbour_type),
    ;
}

pub trait Topology {
    fn hex_hex_neighbours(&self, coord: Coord) -> (r: TopologyResult)
        requires
            neighbours_defined(coord, Type::Hex, Type::Hex),
        ensures
            view_result(r) == neighbours_of(coord, Type::Hex, Type::Hex),
    ;

    fn hex_path_neighbours(&self, coord: Coord) -> (r: TopologyResult)
        requires
            neighbours_defined(coord, Type::Hex, Type::Path),
        ensures
            view_result(r) == neighbours_of(coord, Type::Hex, Type::Path),
    ;

    fn hex_intersection_neighbours(&self, coord: Coord) -> (r: TopologyResult)
        requires
            neighbours_defined(coord, Type::Hex, Type::Intersection),
        ensures
            view_result(r) == neighbours_of(coord, Type::Hex, Type::Intersection),
    ;

    fn path_hex_neighbours(&self, coord: Coord) -> (r: TopologyResult)
        requires
            neighbours_defined(coord, Type::Path, Type::Hex),
        ensures
            view_result(r) == neighbours_of(coord, Type::Path, Type::Hex),
    ;

    fn path_path_neighbours(&self, coord: Coord) -> (r: TopologyResult)
        requires
            neighbours_defined(coord, Type::Path, Type::Path),
        ensures
            view_result(r) == neighbours_of(coord, Type::Path, Type::Path),
    ;

    fn path_intersection_neighbours(&self, coord: Coord) -> (r: TopologyResult)
        requires
            neighbours_defined(coord, Type::Path, Type::Intersection),
        ensures
            view_result(r) == neighbours_of(coord, Type::Path, Type::Intersection),
    ;

    fn intersection_hex_neighbours(&self, coord: Coord) -> (r: TopologyResult)
        requires
            neighbours_defined(coord, Type::Intersection, Type::Hex),
        ensures
            view_result(r) == neighbours_of(coord, Type::Intersection, Type::Hex),
    ;

    fn intersection_path_neighbours(&self, coord: Coord) -> (r: TopologyResult)
        requires
            neighbours_defined(coord, Type::Intersection, Type::Path),
        ensures
            view_result(r) == neighbours_of(coord, Type::Intersection, Type::Path),
    ;

    fn intersection_intersection_neighbours(&self, coord: Coord) -> (r: TopologyResult)
        requires
            neighbours_defined(coord, Type::Intersection, Type::Intersection),
        ensures
            view_result(r) == neighbours_of(coord, Type::Intersection, Type::Intersection),
    ;
}

/// The topology of the coordinate grid.
pub struct CoordTopology;

fn c(x: i8, y: i8) -> (r: Coord)
    ensures
        r == Coord::at(x as int, y as int),
{
    Coord::new(x, y)
}

impl RawTopology for CoordTopology {
    fn neighbours(&self, coord: Coord, center_type: Type, neighbour_type: Type) -> (r: TopologyResult) {
        if coord.get_type() != center_type {
            return Err(Error::WrongCoordType { expected: center_type, received: coord.get_type() });
        }
        let x = coord.x;
        let y = coord.y;
        let d = coord.get_detailed_type();
        let ghost offsets = neighbour_offsets(d, neighbour_type);
        proof {
            assert(coord.type_of() == center_type);
            assert(d == coord.detailed_type_of());
            if offsets is Some {
                assert(offsets_fit(coord, offsets.unwrap()));
            }
        }
        let v = match (d, neighbour_type) {
            (DetailedType::OHex, Type::Hex) => {
                proof { assert(fits_i8(x + 4) && fits_i8(x - 4) && fits_i8(y + 2) && fits_i8(y - 2)) by {
                    let o = offsets.unwrap(); assert(o[0].0 == 4); assert(o[3].0 == -4); assert(o[1].1 == 2); assert(o[4].1 == -2); } }
                vec![c(x + 4, y), c(x + 2, y + 2), c(x - 2, y + 2), c(x - 4, y), c(x - 2, y - 2), c(x + 2, y - 2)]
            },
            (DetailedType::OHex, Type::Path) => {
                proof { assert(fits_i8(x + 2) && fits_i8(x - 2) && fits_i8(y + 1) && fits_i8(y - 1)) by {
                    let o = offsets.unwrap(); assert(o[0].0 == 2); assert(o[3].0 == -2); assert(o[1].1 == 1); assert(o[4].1 == -1); } }
                vec![c(x + 2, y), c(x + 1, y + 1), c(x - 1, y + 1), c(x - 2, y), c(x - 1, y - 1), c(x + 1, y - 1)]
            },
            (DetailedType::OHex, Type::Intersection) => {
                proof { assert(fits_i8(x + 2) && fits_i8(x - 2) && fits_i8(y + 1) && fits_i8(y - 1)) by {
                    let o = offsets.unwrap(); assert(o[0].0 == 2); assert(o[2].0 == -2); assert(o[0].1 == 1); assert(o[3].1 == -1); } }
                vec![c(x + 2, y + 1), c(x, y + 1), c(x - 2, y + 1), c(x - 2, y - 1), c(x, y - 1), c(x + 2, y - 1)]
            },
            (DetailedType::IPath, Type::Hex) => {
                proof { assert(fits_i8(x + 2) && fits_i8(x - 2)) by {
                    let o = offsets.unwrap(); assert(o[0].0 == 2); assert(o[1].0 == -2); } }
                vec![c(x + 2, y), c(x - 2, y)]
            },
            (DetailedType::SPath, Type::Hex) => {
                proof { assert(fits_i8(x + 1) && fits_i8(x - 1) && fits_i8(y + 1) && fits_i8(y - 1)) by {
                    let o = offsets.unwrap(); assert(o[0].0 == 1); assert(o[1].0 == -1); } }
                vec![c(x + 1, y + 1), c(x - 1, y - 1)]
            },
            (DetailedType::ZPath, Type::Hex) => {
                proof { assert(fits_i8(x + 1) && fits_i8(x - 1) && fits_i8(y + 1) && fits_i8(y - 1)) by {
                    let o = offsets.unwrap(); assert(o[0].0 == -1); assert(o[1].0 == 1); } }
                vec![c(x - 1, y + 1), c(x + 1, y - 1)]
            },
            (DetailedType::IPath, Type::Path) => {
                proof { assert(fits_i8(x + 1) && fits_i8(x - 1) && fits_i8(y + 1) && fits_i8(y - 1)) by {
                    let o = offsets.unwrap(); assert(o[0].0 == 1); assert(o[1].0 == -1); assert(o[0].1 == 1); assert(o[2].1 == -1); } }
                vec![c(x + 1, y + 1), c(x - 1, y + 1), c(x - 1, y - 1), c(x + 1, y - 1)]
            },
            (DetailedType::SPath, Type::Path) => {
                proof { assert(fits_i8(x + 2) && fits_i8(x - 2) && fits_i8(x + 1) && fits_i8(x - 1) && fits_i8(y + 1) && fits_i8(y - 1)) by {
                    let o = offsets.unwrap(); assert(o[0].0 == 2); assert(o[2].0 == -2); assert(o[1].1 == 1); assert(o[3].1 == -1); } }
                vec![c(x + 2, y), c(x - 1, y + 1), c(x - 2, y), c(x + 1, y - 1)]
            },
            (DetailedType::ZPath, Type::Path) => {
                proof { assert(fits_i8(x + 2) && fits_i8(x - 2) && fits_i8(x + 1) && fits_i8(x - 1) && fits_i8(y + 1) && fits_i8(y - 1)) by {
                    let o = offsets.unwrap(); assert(o[0].0 == 2); assert(o[2].0 == -2); assert(o[1].1 == 1); assert(o[3].1 == -1); } }
                vec![c(x + 2, y), c(x + 1, y + 1), c(x - 2, y), c(x - 1, y - 1)]
            },
            (DetailedType::IPath, Type::Intersection) => {
                proof { assert(fits_i8(y + 1) && fits_i8(y - 1)) by {
                    let o = offsets.unwrap(); assert(o[0].1 == 1); assert(o[1].1 == -1); } }
                vec![c(x, y + 1), c(x, y - 1)]
            },
            (DetailedType::SPath, Type::Intersection) | (DetailedType::ZPath, Type::Intersection) => {
                proof { assert(fits_i8(x + 1) && fits_i8(x - 1)) by {
                    let o = offsets.unwrap(); assert(o[0].0 == 1); assert(o[1].0 == -1); } }
                vec![c(x + 1, y), c(x - 1, y)]
            },
            (DetailedType::AIntersection, Type::Hex) => {
                proof { assert(fits_i8(x + 2) && fits_i8(x - 2) && fits_i8(y + 1) && fits_i8(y - 1)) by {
                    let o = offsets.unwrap(); assert(o[0].0 == 2); assert(o[1].0 == -2); assert(o[0].1 == 1); assert(o[2].1 == -1); } }
                vec![c(x + 2, y + 1), c(x - 2, y + 1), c(x, y - 1)]
            },
            (DetailedType::VIntersection, Type::Hex) => {
                proof { assert(fits_i8(x + 2) && fits_i8(x - 2) && fits_i8(y + 1) && fits_i8(y - 1)) by {
                    let o = offsets.unwrap(); assert(o[2].0 == 2); assert(o[1].0 == -2); assert(o[0].1 == 1); assert(o[1].1 == -1); } }
                vec![c(x, y + 1), c(x - 2, y - 1), c(x + 2, y - 1)]
            },
            (DetailedType::AIntersection, Type::Path) => {
                proof { assert(fits_i8(x + 1) && fits_i8(x - 1) && fits_i8(y + 1)) by {
                    let o = offsets.unwrap(); assert(o[0].0 == 1); assert(o[2].0 == -1); assert(o[1].1 == 1); } }
                vec![c(x + 1, y), c(x, y + 1), c(x - 1, y)]
            },
            (DetailedType::VIntersection, Type::Path) => {
                proof { assert(fits_i8(x + 1) && fits_i8(x - 1) && fits_i8(y - 1)) by {
                    let o = offsets.unwrap(); assert(o[0].0 == 1); assert(o[1].0 == -1); assert(o[2].1 == -1); } }
                vec![c(x + 1, y), c(x - 1, y), c(x, y - 1)]
            },
            (DetailedType::AIntersection, Type::Intersection) => {
                proof { assert(fits_i8(x + 2) && fits_i8(x - 2) && fits_i8(y + 2)) by {
                    let o = offsets.unwrap(); assert(o[0].0 == 2); assert(o[2].0 == -2); assert(o[1].1 == 2); } }
                vec![c(x + 2, y), c(x, y + 2), c(x - 2, y)]
            },
            (DetailedType::VIntersection, Type::Intersection) => {
                proof { assert(fits_i8(x + 2) && fits_i8(x - 2) && fits_i8(y - 2)) by {
                    let o = offsets.unwrap(); assert(o[0].0 == 2); assert(o[1].0 == -2); assert(o[2].1 == -2); } }
                vec![c(x + 2, y), c(x - 2, y), c(x, y - 2)]
            },
            _ => return Err(Error::InvalidNeighbourTypes { center: center_type, neighbours: neighbour_type }),
        };
        proof {
            assert(v@ =~= shifted(coord, offsets.unwrap()));
        }
        Ok(v)
    }
}

impl<T: RawTopology> Topology for T {
    fn hex_hex_neighbours(&self, coord: Coord) -> (r: TopologyResult) {
        self.neighbours(coord, Type::Hex, Type::Hex)
    }

    fn hex_path_neighbours(&self, coord: Coord) -> (r: TopologyResult) {
        self.neighbours(coord, Type::Hex, Type::Path)
    }

    fn hex_intersection_neighbours(&self, coord: Coord) -> (r: TopologyResult) {
        self.neighbours(coord, Type::Hex, Type::Intersection)
    }

    fn path_hex_neighbours(&self, coord: Coord) -> (r: TopologyResult) {
        self.neighbours(coord, Type::Path, Type::Hex)
    }

    fn path_path_neighbours(&self, coord: Coord) -> (r: TopologyResult) {
        self.neighbours(coord, Type::Path, Type::Path)
    }

    fn path_intersection_neighbours(&self, coord: Coord) -> (r: TopologyResult) {
        self.neighbours(coord, Type::Path, Type::Intersection)
    }

    fn intersection_hex_neighbours(&self, coord: Coord) -> (r: TopologyResult) {
        self.neighbours(coord, Type::Intersection, Type::Hex)
    }

    fn intersection_path_neighbours(&self, coord: Coord) -> (r: TopologyResult) {
        self.neighbours(coord, Type::Intersection, Type::Path)
    }

    fn intersection_intersection_neighbours(&self, coord: Coord) -> (r: TopologyResult) {
        self.neighbours(coord, Type::Intersection, Type::Intersection)
    }
}

} // verus!
