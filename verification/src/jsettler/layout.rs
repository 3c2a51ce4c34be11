use vstd::prelude::*;
use crate::board::coord::{Coord, Type};
use crate::jsettler::tables::{
    js_direction, js_index_to_direction, js_index_to_rust_hex, js_layout_hex, js_res_to_rust_res, js_resource,
    lemma_js_direction_reaches_a_path, lemma_js_layout_cells_are_hexes,
};
use crate::utils::{Harbor, Hex, LandHex};
use crate::utils::resource::Resource;

verus! {

/// What a cell of a JSettlers board layout puts on the board.
#[derive(Copy, Clone, PartialEq, Eq, Structural, Debug)]
pub enum LayoutCell {
    /// A land tile at the cell.
    Tile(Hex),
    /// Sea, which needs nothing set.
    Water,
    /// A harbor on the path `path` beside the cell, reached from both of its
    /// intersections.
    HarborSide { path: Coord, harbor: Harbor },
}

/// The land tile that a JSettlers hex code of 0 to 5 stands for.
pub open spec fn js_tile(hex_code: i32, number: i32) -> Hex {
    if hex_code == 0 {
        Hex::Land(LandHex::Desert)
    } else {
        Hex::Land(LandHex::Prod(js_resource(hex_code)->0, number as u8))
    }
}

/// A JSettlers hex code is one this library reads: a tile (0 to 5), water
/// (6), a generic harbor facing one of the six sides (7 to 12), or a special
/// harbor whose low four bits name its resource and whose higher bits name
/// its side.
pub open spec fn readable_hex_code(hex_code: i32) -> bool {
    0 <= hex_code <= 12 || (js_resource(hex_code & 15) is Some && js_direction(hex_code >> 4) is Some)
}

/// The path beside the hex at `(x, y)` in the JSettlers direction `js_index`.
pub open spec fn side_path(x: int, y: int, js_index: i32) -> Coord {
    let (dx, dy) = js_direction(js_index)->0;
    Coord::at(x + dx, y + dy)
}

/// What the cell at place `index` of a JSettlers layout, with hex code
/// `hex_code` and dice number `number`, puts on the board.
pub open spec fn js_layout_cell(index: usize, hex_code: i32, number: i32) -> LayoutCell {
    let (x, y) = js_layout_hex(index)->0;
    if 0 <= hex_code <= 5 {
        LayoutCell::Tile(js_tile(hex_code, number))
    } else if hex_code == 6 {
        LayoutCell::Water
    } else if 7 <= hex_code <= 12 {
        LayoutCell::HarborSide { path: side_path(x, y, (hex_code - 6) as i32), harbor: Harbor::Generic }
    } else {
        LayoutCell::HarborSide {
            path: side_path(x, y, hex_code >> 4),
            harbor: Harbor::Special(js_resource(hex_code & 15)->0),
        }
    }
}

/// Reads one cell of a JSettlers board layout: its grid coordinate and what
/// it puts on the board. A harbor always stands on a path.
pub fn decode_layout_cell(index: usize, hex_code: i32, number: i32) -> (r: (Coord, LayoutCell))
    requires
        index < 37,
        readable_hex_code(hex_code),
    ensures
        js_layout_hex(index) == Some((r.0.x as int, r.0.y as int)),
        r.1 == js_layout_cell(index, hex_code, number),
        r.1 matches LayoutCell::HarborSide { path, .. } ==> path.type_of() == Type::Path,
{
    let coord = js_index_to_rust_hex(index);
    proof {
        lemma_js_layout_cells_are_hexes(index);
    }
    let cell = if hex_code == 0 {
        LayoutCell::Tile(Hex::Land(LandHex::Desert))
    } else if 1 <= hex_code && hex_code <= 5 {
        let resource: Resource = js_res_to_rust_res(hex_code);
        LayoutCell::Tile(Hex::Land(LandHex::Prod(resource, number as u8)))
    } else if hex_code == 6 {
        LayoutCell::Water
    } else {
        let (direction_id, harbor) = if 7 <= hex_code && hex_code <= 12 {
            (hex_code - 6, Harbor::Generic)
        } else {
            let resource = js_res_to_rust_res(hex_code & 0x0F);
            (hex_code >> 4, Harbor::Special(resource))
        };
        let direction = js_index_to_direction(direction_id);
        proof {
            lemma_js_direction_reaches_a_path(coord.x as int, coord.y as int, direction_id);
        }
        let path = Coord { x: coord.x + direction.0, y: coord.y + direction.1 };
        LayoutCell::HarborSide { path, harbor }
    };
    (coord, cell)
}

} // verus!
