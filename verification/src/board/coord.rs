use vstd::prelude::*;
use crate::board::topology::CoordTopology;
use crate::utils::text::{decimal, push_char, push_decimal};

verus! {

/// The kind of place a coordinate of the grid stands for.
#[derive(Copy, Clone, PartialEq, Eq, Structural, Debug)]
pub enum Type {
    Void,
    Hex,
    Path,
    Intersection,
}

/// The position of a coord on the grid; a more detailed version of [`Type`].
///
/// The positions around a hex, by the first letters of the variants:
///         A
///     Z       S
/// V               V
///
/// I   L   H   R   I
///
/// A               A
///     S       Z
///         V
#[derive(Copy, Clone, PartialEq, Eq, Structural, Debug)]
pub enum DetailedType {
    /// The empty position between a hex center and its left path
    LVoid,
    /// The empty position between a hex center and its right path
    RVoid,
    /// The center of a hex
    OHex,
    /// The path at the top right or bottom left of a hex
    SPath,
    /// The path at the top left or bottom right of a hex
    ZPath,
    /// The vertical path at the left or right of a hex
    IPath,
    /// The intersection found below a hex
    VIntersection,
    /// The intersection found above a hex
    AIntersection,
}

/// A point of the grid. The row `y` is declared first so that the derived
/// order compares rows first and columns second.
#[derive(Copy, Clone, PartialEq, Eq, Structural, Ord, Debug)]
pub struct Coord {
    pub y: i8,
    pub x: i8,
}

/// The pattern of the grid repeats every four columns and four rows;
/// `hash_x` and `hash_y` locate a coordinate in that pattern.
pub open spec fn hash_y(y: int) -> int {
    (y % 4) % 2
}

pub open spec fn hash_x(x: int, y: int) -> int {
    (x + 2 * ((y % 4) / 2)) % 4
}

impl Coord {
    pub open spec fn at(x: int, y: int) -> Coord {
        Coord { x: x as i8, y: y as i8 }
    }

    /// The coordinate can be located in the pattern without overflowing a byte.
    pub open spec fn hashable(self) -> bool {
        self.x + 2 * ((self.y % 4) / 2) <= i8::MAX
    }

    pub open spec fn detailed_type_of(self) -> DetailedType {
        let hx = hash_x(self.x as int, self.y as int);
        let hy = hash_y(self.y as int);
        if hy == 0 {
            if hx == 0 {
                DetailedType::OHex
            } else if hx == 1 {
                DetailedType::RVoid
            } else if hx == 2 {
                DetailedType::IPath
            } else {
                DetailedType::LVoid
            }
        } else {
            if hx == 0 {
                DetailedType::AIntersection
            } else if hx == 1 {
                DetailedType::SPath
            } else if hx == 2 {
                DetailedType::VIntersection
            } else {
                DetailedType::ZPath
            }
        }
    }

    pub open spec fn type_of(self) -> Type {
        match self.detailed_type_of() {
            DetailedType::OHex => Type::Hex,
            DetailedType::IPath | DetailedType::SPath | DetailedType::ZPath => Type::Path,
            DetailedType::AIntersection | DetailedType::VIntersection => Type::Intersection,
            _ => Type::Void,
        }
    }

    /// The text a coordinate is displayed with: `(x,y)`.
    pub open spec fn display(self) -> Seq<char> {
        seq!['('] + decimal(self.x as int) + seq![','] + decimal(self.y as int) + seq![')']
    }

    /// The text a coordinate is shown with when debugging: `Coord(x,y)`.
    pub open spec fn debug(self) -> Seq<char> {
        seq!['C', 'o', 'o', 'r', 'd'] + self.display()
    }

    pub const TOPOLOGY: CoordTopology = CoordTopology;

    /// The origin of the grid, the center of a hex.
    pub fn zero() -> (r: Coord)
        ensures
            r == Coord::at(0, 0),
    {
        Coord::new(0, 0)
    }

    pub fn new(x: i8, y: i8) -> (r: Coord)
        ensures
            r.x == x,
            r.y == y,
    {
        Coord { x, y }
    }

    /// The place of the coordinate in the repeating pattern of the grid.
    pub fn get_hash(&self) -> (r: (u8, u8))
        requires
            self.hashable(),
        ensures
            r.0 == hash_x(self.x as int, self.y as int),
            r.1 == hash_y(self.y as int),
    {
        let y_r: i8 = match self.y.checked_rem_euclid(4) {
            Some(v) => v,
            None => 0,
        };
        let y_p: i8 = y_r / 2;
        let y_r: i8 = y_r % 2;
        let x_r: i8 = match (self.x + 2 * y_p).checked_rem_euclid(4) {
            Some(v) => v,
            None => 0,
        };
        (x_r as u8, y_r as u8)
    }

    pub fn get_detailed_type(&self) -> (r: DetailedType)
        requires
            self.hashable(),
        ensures
            r == self.detailed_type_of(),
    {
        match self.get_hash() {
            (0, 0) => DetailedType::OHex,
            (1, 0) => DetailedType::RVoid,
            (2, 0) => DetailedType::IPath,
            (3, 0) => DetailedType::LVoid,
            (0, 1) => DetailedType::AIntersection,
            (1, 1) => DetailedType::SPath,
            (2, 1) => DetailedType::VIntersection,
            (_, _) => DetailedType::ZPath,
        }
    }

    pub fn get_type(&self) -> (r: Type)
        requires
            self.hashable(),
        ensures
            r == self.type_of(),
    {
        match self.get_hash() {
            (0, 0) => Type::Hex,
            (2, 0) | (1, 1) | (3, 1) => Type::Path,
            (0, 1) | (2, 1) => Type::Intersection,
            _ => Type::Void,
        }
    }

    /// The text `(x,y)`.
    pub fn to_string(&self) -> (r: String)
        ensures
            r@ == self.display(),
    {
        let mut s = String::new();
        push_char(&mut s, '(');
        push_decimal(&mut s, self.x);
        push_char(&mut s, ',');
        push_decimal(&mut s, self.y);
        push_char(&mut s, ')');
        proof {
            assert(s@ =~= self.display());
        }
        s
    }

    /// The text `Coord(x,y)`.
    pub fn debug_string(&self) -> (r: String)
        ensures
            r@ == self.debug(),
    {
        let mut s = String::new();
        push_char(&mut s, 'C');
        push_char(&mut s, 'o');
        push_char(&mut s, 'o');
        push_char(&mut s, 'r');
        push_char(&mut s, 'd');
        push_char(&mut s, '(');
        push_decimal(&mut s, self.x);
        push_char(&mut s, ',');
        push_decimal(&mut s, self.y);
        push_char(&mut s, ')');
        proof {
            assert(s@ =~= self.debug());
        }
        s
    }
}

impl Type {
    /// The one-letter name a kind of place is displayed with.
    pub open spec fn letter(self) -> char {
        match self {
            Type::Void => 'V',
            Type::Hex => 'H',
            Type::Path => 'P',
            Type::Intersection => 'I',
        }
    }

    pub fn to_string(&self) -> (r: String)
        ensures
            r@ == seq![self.letter()],
    {
        let mut s = String::new();
        let c = match self {
            Type::Void => 'V',
            Type::Hex => 'H',
            Type::Path => 'P',
            Type::Intersection => 'I',
        };
        push_char(&mut s, c);
        proof {
            assert(s@ =~= seq![self.letter()]);
        }
        s
    }
}

} // verus!
