use vstd::prelude::*;
use crate::board::coord::{Coord, Type};
use crate::utils::development_card::DevelopmentCard;
use crate::utils::resource::Resource;

verus! {

/// The grid position of the hex that JSettlers numbers `js`, if there is one.
pub open spec fn js_hex_position(js: i32) -> Option<(int, int)> {
    match js {
        51 => Some((-8, 0)),
        53 => Some((-6, 2)),
        55 => Some((-4, 4)),
        83 => Some((-6, -2)),
        85 => Some((-4, 0)),
        87 => Some((-2, 2)),
        89 => Some((0, 4)),
        115 => Some((-4, -4)),
        117 => Some((-2, -2)),
        119 => Some((0, 0)),
        121 => Some((2, 2)),
        123 => Some((4, 4)),
        149 => Some((0, -4)),
        151 => Some((2, -2)),
        153 => Some((4, 0)),
        155 => Some((6, 2)),
        183 => Some((4, -4)),
        185 => Some((6, -2)),
        187 => Some((8, 0)),
        _ => None,
    }
}

/// The JSettlers number of the hex at grid position `(x, y)`, if it is on the board.
pub open spec fn hex_js_number(x: i8, y: i8) -> Option<i32> {
    match (x, y) {
        (-8, 0) => Some(51),
        (-6, 2) => Some(53),
        (-4, 4) => Some(55),
        (-6, -2) => Some(83),
        (-4, 0) => Some(85),
        (-2, 2) => Some(87),
        (0, 4) => Some(89),
        (-4, -4) => Some(115),
        (-2, -2) => Some(117),
        (0, 0) => Some(119),
        (2, 2) => Some(121),
        (4, 4) => Some(123),
        (0, -4) => Some(149),
        (2, -2) => Some(151),
        (4, 0) => Some(153),
        (6, 2) => Some(155),
        (4, -4) => Some(183),
        (6, -2) => Some(185),
        (8, 0) => Some(187),
        _ => None,
    }
}

/// The grid coordinate of a hex given by its JSettlers number.
pub fn js_hex_to_rust_coord(js_coord: i32) -> (r: Coord)
    requires
        js_hex_position(js_coord) is Some,
    ensures
        js_hex_position(js_coord) == Some((r.x as int, r.y as int)),
{
    let (x, y): (i8, i8) = match js_coord {
        51 => (-8, 0),
        53 => (-6, 2),
        55 => (-4, 4),
        83 => (-6, -2),
        85 => (-4, 0),
        87 => (-2, 2),
        89 => (0, 4),
        115 => (-4, -4),
        117 => (-2, -2),
        119 => (0, 0),
        121 => (2, 2),
        123 => (4, 4),
        149 => (0, -4),
        151 => (2, -2),
        153 => (4, 0),
        155 => (6, 2),
        183 => (4, -4),
        185 => (6, -2),
        _ => (8, 0),
    };
    Coord { x, y }
}

/// The JSettlers number of a hex given by its grid coordinate.
pub fn rust_coord_to_js_hex(rust_coord: &Coord) -> (r: i32)
    requires
        hex_js_number(rust_coord.x, rust_coord.y) is Some,
    ensures
        hex_js_number(rust_coord.x, rust_coord.y) == Some(r),
{
    match (rust_coord.x, rust_coord.y) {
        (-8, 0) => 51,
        (-6, 2) => 53,
        (-4, 4) => 55,
        (-6, -2) => 83,
        (-4, 0) => 85,
        (-2, 2) => 87,
        (0, 4) => 89,
        (-4, -4) => 115,
        (-2, -2) => 117,
        (0, 0) => 119,
        (2, 2) => 121,
        (4, 4) => 123,
        (0, -4) => 149,
        (2, -2) => 151,
        (4, 0) => 153,
        (6, 2) => 155,
        (4, -4) => 183,
        (6, -2) => 185,
        _ => 187,
    }
}

/// The grid position of the intersection that JSettlers numbers `js`, if there is one.
pub open spec fn js_intersection_position(js: i32) -> Option<(int, int)> {
    match js {
        35 => Some((-10, 1)),
        37 => Some((-8, 3)),
        39 => Some((-6, 5)),
        50 => Some((-10, -1)),
        52 => Some((-8, 1)),
        54 => Some((-6, 3)),
        56 => Some((-4, 5)),
        67 => Some((-8, -1)),
        69 => Some((-6, 1)),
        71 => Some((-4, 3)),
        73 => Some((-2, 5)),
        82 => Some((-8, -3)),
        84 => Some((-6, -1)),
        86 => Some((-4, 1)),
        88 => Some((-2, 3)),
        90 => Some((0, 5)),
        99 => Some((-6, -3)),
        101 => Some((-4, -1)),
        103 => Some((-2, 1)),
        105 => Some((0, 3)),
        107 => Some((2, 5)),
        114 => Some((-6, -5)),
        116 => Some((-4, -3)),
        118 => Some((-2, -1)),
        120 => Some((0, 1)),
        122 => Some((2, 3)),
        124 => Some((4, 5)),
        131 => Some((-4, -5)),
        133 => Some((-2, -3)),
        135 => Some((0, -1)),
        137 => Some((2, 1)),
        139 => Some((4, 3)),
        141 => Some((6, 5)),
        148 => Some((-2, -5)),
        150 => Some((0, -3)),
        152 => Some((2, -1)),
        154 => Some((4, 1)),
        156 => Some((6, 3)),
        165 => Some((0, -5)),
        167 => Some((2, -3)),
        169 => Some((4, -1)),
        171 => Some((6, 1)),
        173 => Some((8, 3)),
        182 => Some((2, -5)),
        184 => Some((4, -3)),
        186 => Some((6, -1)),
        188 => Some((8, 1)),
        199 => Some((4, -5)),
        201 => Some((6, -3)),
        203 => Some((8, -1)),
        205 => Some((10, 1)),
        216 => Some((6, -5)),
        218 => Some((8, -3)),
        220 => Some((10, -1)),
        _ => None,
    }
}

/// The JSettlers number of the intersection at grid position `(x, y)`, if it is on the board.
pub open spec fn intersection_js_number(x: i8, y: i8) -> Option<i32> {
    match (x, y) {
        (-10, 1) => Some(35),
        (-8, 3) => Some(37),
        (-6, 5) => Some(39),
        (-10, -1) => Some(50),
        (-8, 1) => Some(52),
        (-6, 3) => Some(54),
        (-4, 5) => Some(56),
        (-8, -1) => Some(67),
        (-6, 1) => Some(69),
        (-4, 3) => Some(71),
        (-2, 5) => Some(73),
        (-8, -3) => Some(82),
        (-6, -1) => Some(84),
        (-4, 1) => Some(86),
        (-2, 3) => Some(88),
        (0, 5) => Some(90),
        (-6, -3) => Some(99),
        (-4, -1) => Some(101),
        (-2, 1) => Some(103),
        (0, 3) => Some(105),
        (2, 5) => Some(107),
        (-6, -5) => Some(114),
        (-4, -3) => Some(116),
        (-2, -1) => Some(118),
        (0, 1) => Some(120),
        (2, 3) => Some(122),
        (4, 5) => Some(124),
        (-4, -5) => Some(131),
        (-2, -3) => Some(133),
        (0, -1) => Some(135),
        (2, 1) => Some(137),
        (4, 3) => Some(139),
        (6, 5) => Some(141),
        (-2, -5) => Some(148),
        (0, -3) => Some(150),
        (2, -1) => Some(152),
        (4, 1) => Some(154),
        (6, 3) => Some(156),
        (0, -5) => Some(165),
        (2, -3) => Some(167),
        (4, -1) => Some(169),
        (6, 1) => Some(171),
        (8, 3) => Some(173),
        (2, -5) => Some(182),
        (4, -3) => Some(184),
        (6, -1) => Some(186),
        (8, 1) => Some(188),
        (4, -5) => Some(199),
        (6, -3) => Some(201),
        (8, -1) => Some(203),
        (10, 1) => Some(205),
        (6, -5) => Some(216),
        (8, -3) => Some(218),
        (10, -1) => Some(220),
        _ => None,
    }
}

/// The grid coordinate of an intersection given by its JSettlers number.
pub fn js_intersection_to_rust_coord(js_coord: i32) -> (r: Coord)
    requires
        js_intersection_position(js_coord) is Some,
    ensures
        js_intersection_position(js_coord) == Some((r.x as int, r.y as int)),
{
    let (x, y): (i8, i8) = match js_coord {
        35 => (-10, 1),
        37 => (-8, 3),
        39 => (-6, 5),
        50 => (-10, -1),
        52 => (-8, 1),
        54 => (-6, 3),
        56 => (-4, 5),
        67 => (-8, -1),
        69 => (-6, 1),
        71 => (-4, 3),
        73 => (-2, 5),
        82 => (-8, -3),
        84 => (-6, -1),
        86 => (-4, 1),
        88 => (-2, 3),
        90 => (0, 5),
        99 => (-6, -3),
        101 => (-4, -1),
        103 => (-2, 1),
        105 => (0, 3),
        107 => (2, 5),
        114 => (-6, -5),
        116 => (-4, -3),
        118 => (-2, -1),
        120 => (0, 1),
        122 => (2, 3),
        124 => (4, 5),
        131 => (-4, -5),
        133 => (-2, -3),
        135 => (0, -1),
        137 => (2, 1),
        139 => (4, 3),
        141 => (6, 5),
        148 => (-2, -5),
        150 => (0, -3),
        152 => (2, -1),
        154 => (4, 1),
        156 => (6, 3),
        165 => (0, -5),
        167 => (2, -3),
        169 => (4, -1),
        171 => (6, 1),
        173 => (8, 3),
        182 => (2, -5),
        184 => (4, -3),
        186 => (6, -1),
        188 => (8, 1),
        199 => (4, -5),
        201 => (6, -3),
        203 => (8, -1),
        205 => (10, 1),
        216 => (6, -5),
        218 => (8, -3),
        _ => (10, -1),
    };
    Coord { x, y }
}

/// The JSettlers number of an intersection given by its grid coordinate.
pub fn rust_coord_to_js_intersection(rust_coord: &Coord) -> (r: i32)
    requires
        intersection_js_number(rust_coord.x, rust_coord.y) is Some,
    ensures
        intersection_js_number(rust_coord.x, rust_coord.y) == Some(r),
{
    match (rust_coord.x, rust_coord.y) {
        (-10, 1) => 35,
        (-8, 3) => 37,
        (-6, 5) => 39,
        (-10, -1) => 50,
        (-8, 1) => 52,
        (-6, 3) => 54,
        (-4, 5) => 56,
        (-8, -1) => 67,
        (-6, 1) => 69,
        (-4, 3) => 71,
        (-2, 5) => 73,
        (-8, -3) => 82,
        (-6, -1) => 84,
        (-4, 1) => 86,
        (-2, 3) => 88,
        (0, 5) => 90,
        (-6, -3) => 99,
        (-4, -1) => 101,
        (-2, 1) => 103,
        (0, 3) => 105,
        (2, 5) => 107,
        (-6, -5) => 114,
        (-4, -3) => 116,
        (-2, -1) => 118,
        (0, 1) => 120,
        (2, 3) => 122,
        (4, 5) => 124,
        (-4, -5) => 131,
        (-2, -3) => 133,
        (0, -1) => 135,
        (2, 1) => 137,
        (4, 3) => 139,
        (6, 5) => 141,
        (-2, -5) => 148,
        (0, -3) => 150,
        (2, -1) => 152,
        (4, 1) => 154,
        (6, 3) => 156,
        (0, -5) => 165,
        (2, -3) => 167,
        (4, -1) => 169,
        (6, 1) => 171,
        (8, 3) => 173,
        (2, -5) => 182,
        (4, -3) => 184,
        (6, -1) => 186,
        (8, 1) => 188,
        (4, -5) => 199,
        (6, -3) => 201,
        (8, -1) => 203,
        (10, 1) => 205,
        (6, -5) => 216,
        (8, -3) => 218,
        _ => 220,
    }
}

/// The grid position of the path that JSettlers numbers `js` as an edge, if there is one.
pub open spec fn js_edge_position(js: i32) -> Option<(int, int)> {
    match js {
        34 => Some((-10, 0)),
        35 => Some((-9, 1)),
        36 => Some((-8, 2)),
        37 => Some((-7, 3)),
        38 => Some((-6, 4)),
        39 => Some((-5, 5)),
        50 => Some((-9, -1)),
        52 => Some((-7, 1)),
        54 => Some((-5, 3)),
        56 => Some((-3, 5)),
        66 => Some((-8, -2)),
        67 => Some((-7, -1)),
        68 => Some((-6, 0)),
        69 => Some((-5, 1)),
        70 => Some((-4, 2)),
        71 => Some((-3, 3)),
        72 => Some((-2, 4)),
        73 => Some((-1, 5)),
        82 => Some((-7, -3)),
        84 => Some((-5, -1)),
        86 => Some((-3, 1)),
        88 => Some((-1, 3)),
        90 => Some((1, 5)),
        98 => Some((-6, -4)),
        99 => Some((-5, -3)),
        100 => Some((-4, -2)),
        101 => Some((-3, -1)),
        102 => Some((-2, 0)),
        103 => Some((-1, 1)),
        104 => Some((0, 2)),
        105 => Some((1, 3)),
        106 => Some((2, 4)),
        107 => Some((3, 5)),
        114 => Some((-5, -5)),
        116 => Some((-3, -3)),
        118 => Some((-1, -1)),
        120 => Some((1, 1)),
        122 => Some((3, 3)),
        124 => Some((5, 5)),
        131 => Some((-3, -5)),
        132 => Some((-2, -4)),
        133 => Some((-1, -3)),
        134 => Some((0, -2)),
        135 => Some((1, -1)),
        136 => Some((2, 0)),
        137 => Some((3, 1)),
        138 => Some((4, 2)),
        139 => Some((5, 3)),
        140 => Some((6, 4)),
        148 => Some((-1, -5)),
        150 => Some((1, -3)),
        152 => Some((3, -1)),
        154 => Some((5, 1)),
        156 => Some((7, 3)),
        165 => Some((1, -5)),
        166 => Some((2, -4)),
        167 => Some((3, -3)),
        168 => Some((4, -2)),
        169 => Some((5, -1)),
        170 => Some((6, 0)),
        171 => Some((7, 1)),
        172 => Some((8, 2)),
        182 => Some((3, -5)),
        184 => Some((5, -3)),
        186 => Some((7, -1)),
        188 => Some((9, 1)),
        199 => Some((5, -5)),
        200 => Some((6, -4)),
        201 => Some((7, -3)),
        202 => Some((8, -2)),
        203 => Some((9, -1)),
        204 => Some((10, 0)),
        _ => None,
    }
}

/// The JSettlers edge number of the path at grid position `(x, y)`, if it is on the board.
pub open spec fn edge_js_number(x: i8, y: i8) -> Option<i32> {
    match (x, y) {
        (-10, 0) => Some(34),
        (-9, 1) => Some(35),
        (-8, 2) => Some(36),
        (-7, 3) => Some(37),
        (-6, 4) => Some(38),
        (-5, 5) => Some(39),
        (-9, -1) => Some(50),
        (-7, 1) => Some(52),
        (-5, 3) => Some(54),
        (-3, 5) => Some(56),
        (-8, -2) => Some(66),
        (-7, -1) => Some(67),
        (-6, 0) => Some(68),
        (-5, 1) => Some(69),
        (-4, 2) => Some(70),
        (-3, 3) => Some(71),
        (-2, 4) => Some(72),
        (-1, 5) => Some(73),
        (-7, -3) => Some(82),
        (-5, -1) => Some(84),
        (-3, 1) => Some(86),
        (-1, 3) => Some(88),
        (1, 5) => Some(90),
        (-6, -4) => Some(98),
        (-5, -3) => Some(99),
        (-4, -2) => Some(100),
        (-3, -1) => Some(101),
        (-2, 0) => Some(102),
        (-1, 1) => Some(103),
        (0, 2) => Some(104),
        (1, 3) => Some(105),
        (2, 4) => Some(106),
        (3, 5) => Some(107),
        (-5, -5) => Some(114),
        (-3, -3) => Some(116),
        (-1, -1) => Some(118),
        (1, 1) => Some(120),
        (3, 3) => Some(122),
        (5, 5) => Some(124),
        (-3, -5) => Some(131),
        (-2, -4) => Some(132),
        (-1, -3) => Some(133),
        (0, -2) => Some(134),
        (1, -1) => Some(135),
        (2, 0) => Some(136),
        (3, 1) => Some(137),
        (4, 2) => Some(138),
        (5, 3) => Some(139),
        (6, 4) => Some(140),
        (-1, -5) => Some(148),
        (1, -3) => Some(150),
        (3, -1) => Some(152),
        (5, 1) => Some(154),
        (7, 3) => Some(156),
        (1, -5) => Some(165),
        (2, -4) => Some(166),
        (3, -3) => Some(167),
        (4, -2) => Some(168),
        (5, -1) => Some(169),
        (6, 0) => Some(170),
        (7, 1) => Some(171),
        (8, 2) => Some(172),
        (3, -5) => Some(182),
        (5, -3) => Some(184),
        (7, -1) => Some(186),
        (9, 1) => Some(188),
        (5, -5) => Some(199),
        (6, -4) => Some(200),
        (7, -3) => Some(201),
        (8, -2) => Some(202),
        (9, -1) => Some(203),
        (10, 0) => Some(204),
        _ => None,
    }
}

/// The grid coordinate of a path given by its JSettlers edge number.
pub fn js_edge_to_rust_coord(js_coord: i32) -> (r: Coord)
    requires
        js_edge_position(js_coord) is Some,
    ensures
        js_edge_position(js_coord) == Some((r.x as int, r.y as int)),
{
    let (x, y): (i8, i8) = match js_coord {
        34 => (-10, 0),
        35 => (-9, 1),
        36 => (-8, 2),
        37 => (-7, 3),
        38 => (-6, 4),
        39 => (-5, 5),
        50 => (-9, -1),
        52 => (-7, 1),
        54 => (-5, 3),
        56 => (-3, 5),
        66 => (-8, -2),
        67 => (-7, -1),
        68 => (-6, 0),
        69 => (-5, 1),
        70 => (-4, 2),
        71 => (-3, 3),
        72 => (-2, 4),
        73 => (-1, 5),
        82 => (-7, -3),
        84 => (-5, -1),
        86 => (-3, 1),
        88 => (-1, 3),
        90 => (1, 5),
        98 => (-6, -4),
        99 => (-5, -3),
        100 => (-4, -2),
        101 => (-3, -1),
        102 => (-2, 0),
        103 => (-1, 1),
        104 => (0, 2),
        105 => (1, 3),
        106 => (2, 4),
        107 => (3, 5),
        114 => (-5, -5),
        116 => (-3, -3),
        118 => (-1, -1),
        120 => (1, 1),
        122 => (3, 3),
        124 => (5, 5),
        131 => (-3, -5),
        132 => (-2, -4),
        133 => (-1, -3),
        134 => (0, -2),
        135 => (1, -1),
        136 => (2, 0),
        137 => (3, 1),
        138 => (4, 2),
        139 => (5, 3),
        140 => (6, 4),
        148 => (-1, -5),
        150 => (1, -3),
        152 => (3, -1),
        154 => (5, 1),
        156 => (7, 3),
        165 => (1, -5),
        166 => (2, -4),
        167 => (3, -3),
        168 => (4, -2),
        169 => (5, -1),
        170 => (6, 0),
        171 => (7, 1),
        172 => (8, 2),
        182 => (3, -5),
        184 => (5, -3),
        186 => (7, -1),
        188 => (9, 1),
        199 => (5, -5),
        200 => (6, -4),
        201 => (7, -3),
        202 => (8, -2),
        203 => (9, -1),
        _ => (10, 0),
    };
    Coord { x, y }
}

/// The JSettlers edge number of a path given by its grid coordinate.
pub fn rust_coord_to_js_edge(rust_coord: &Coord) -> (r: i32)
    requires
        edge_js_number(rust_coord.x, rust_coord.y) is Some,
    ensures
        edge_js_number(rust_coord.x, rust_coord.y) == Some(r),
{
    match (rust_coord.x, rust_coord.y) {
        (-10, 0) => 34,
        (-9, 1) => 35,
        (-8, 2) => 36,
        (-7, 3) => 37,
        (-6, 4) => 38,
        (-5, 5) => 39,
        (-9, -1) => 50,
        (-7, 1) => 52,
        (-5, 3) => 54,
        (-3, 5) => 56,
        (-8, -2) => 66,
        (-7, -1) => 67,
        (-6, 0) => 68,
        (-5, 1) => 69,
        (-4, 2) => 70,
        (-3, 3) => 71,
        (-2, 4) => 72,
        (-1, 5) => 73,
        (-7, -3) => 82,
        (-5, -1) => 84,
        (-3, 1) => 86,
        (-1, 3) => 88,
        (1, 5) => 90,
        (-6, -4) => 98,
        (-5, -3) => 99,
        (-4, -2) => 100,
        (-3, -1) => 101,
        (-2, 0) => 102,
        (-1, 1) => 103,
        (0, 2) => 104,
        (1, 3) => 105,
        (2, 4) => 106,
        (3, 5) => 107,
        (-5, -5) => 114,
        (-3, -3) => 116,
        (-1, -1) => 118,
        (1, 1) => 120,
        (3, 3) => 122,
        (5, 5) => 124,
        (-3, -5) => 131,
        (-2, -4) => 132,
        (-1, -3) => 133,
        (0, -2) => 134,
        (1, -1) => 135,
        (2, 0) => 136,
        (3, 1) => 137,
        (4, 2) => 138,
        (5, 3) => 139,
        (6, 4) => 140,
        (-1, -5) => 148,
        (1, -3) => 150,
        (3, -1) => 152,
        (5, 1) => 154,
        (7, 3) => 156,
        (1, -5) => 165,
        (2, -4) => 166,
        (3, -3) => 167,
        (4, -2) => 168,
        (5, -1) => 169,
        (6, 0) => 170,
        (7, 1) => 171,
        (8, 2) => 172,
        (3, -5) => 182,
        (5, -3) => 184,
        (7, -1) => 186,
        (9, 1) => 188,
        (5, -5) => 199,
        (6, -4) => 200,
        (7, -3) => 201,
        (8, -2) => 202,
        (9, -1) => 203,
        _ => 204,
    }
}

/// The resource that JSettlers numbers `js`.
pub open spec fn js_resource(js: i32) -> Option<Resource> {
    match js {
        1 => Some(Resource::Brick),
        2 => Some(Resource::Ore),
        3 => Some(Resource::Wool),
        4 => Some(Resource::Grain),
        5 => Some(Resource::Lumber),
        _ => None,
    }
}

/// The JSettlers number of a resource.
pub open spec fn resource_js_number(resource: Resource) -> i32 {
    match resource {
        Resource::Brick => 1,
        Resource::Ore => 2,
        Resource::Wool => 3,
        Resource::Grain => 4,
        Resource::Lumber => 5,
    }
}

/// The resource given by its JSettlers number.
pub fn js_res_to_rust_res(js_res: i32) -> (r: Resource)
    requires
        js_resource(js_res) is Some,
    ensures
        js_resource(js_res) == Some(r),
{
    match js_res {
        1 => Resource::Brick,
        2 => Resource::Ore,
        3 => Resource::Wool,
        4 => Resource::Grain,
        _ => Resource::Lumber,
    }
}

/// The JSettlers number of a resource.
pub fn rust_res_to_js_res(rust_res: Resource) -> (r: i32)
    ensures
        r == resource_js_number(rust_res),
{
    match rust_res {
        Resource::Brick => 1,
        Resource::Ore => 2,
        Resource::Wool => 3,
        Resource::Grain => 4,
        Resource::Lumber => 5,
    }
}

/// The kind of development card that JSettlers numbers `js`. Every victory
/// point card counts as one kind, and a card of unknown kind counts as a knight.
pub open spec fn js_development_card(js: i32) -> Option<DevelopmentCard> {
    match js {
        1 => Some(DevelopmentCard::RoadBuilding),
        2 => Some(DevelopmentCard::YearOfPlenty),
        3 => Some(DevelopmentCard::Monopole),
        4 | 5 | 6 | 7 | 8 => Some(DevelopmentCard::VictoryPoint),
        9 | 0 => Some(DevelopmentCard::Knight),
        _ => None,
    }
}

/// The kind of a development card given by its JSettlers number, if the
/// number is one.
pub fn js_card_to_development_card(js_card: i32) -> (r: Option<DevelopmentCard>)
    ensures
        r == js_development_card(js_card),
        r == Some(DevelopmentCard::VictoryPoint) <==> 4 <= js_card <= 8,
        r == Some(DevelopmentCard::Knight) <==> js_card == 0 || js_card == 9,
        r is None <==> js_card < 0 || js_card > 9,
{
    proof {
        lemma_js_card_kinds(js_card);
    }
    match js_card {
        1 => Some(DevelopmentCard::RoadBuilding),
        2 => Some(DevelopmentCard::YearOfPlenty),
        3 => Some(DevelopmentCard::Monopole),
        4 | 5 | 6 | 7 | 8 => Some(DevelopmentCard::VictoryPoint),
        9 | 0 => Some(DevelopmentCard::Knight),
        _ => None,
    }
}

/// How JSettlers numbers development cards: 0 is a card of unknown kind and
/// 9 a knight, both read as knights; 1, 2 and 3 are road building, year of
/// plenty and monopoly; 4 to 8 are the five victory point cards. No other
/// number names a card.
pub proof fn lemma_js_card_kinds(js: i32)
    ensures
        js_development_card(js) == Some(DevelopmentCard::VictoryPoint) <==> 4 <= js <= 8,
        js_development_card(js) == Some(DevelopmentCard::Knight) <==> js == 0 || js == 9,
        js_development_card(js) == Some(DevelopmentCard::RoadBuilding) <==> js == 1,
        js_development_card(js) == Some(DevelopmentCard::YearOfPlenty) <==> js == 2,
        js_development_card(js) == Some(DevelopmentCard::Monopole) <==> js == 3,
        js_development_card(js) is None <==> js < 0 || js > 9,
{
}

/// The step on the grid from the center of a hex to the middle of its side
/// that JSettlers numbers `js_index`, counted clockwise from the upper right.
pub open spec fn js_direction(js_index: i32) -> Option<(int, int)> {
    match js_index {
        1 => Some((1, 1)),
        2 => Some((2, 0)),
        3 => Some((1, -1)),
        4 => Some((-1, -1)),
        5 => Some((-2, 0)),
        6 => Some((-1, 1)),
        _ => None,
    }
}

/// The step from a hex center to one of its sides, given by its JSettlers number.
pub fn js_index_to_direction(js_index: i32) -> (r: (i8, i8))
    requires
        js_direction(js_index) is Some,
    ensures
        js_direction(js_index) == Some((r.0 as int, r.1 as int)),
{
    match js_index {
        1 => (1, 1),
        2 => (2, 0),
        3 => (1, -1),
        4 => (-1, -1),
        5 => (-2, 0),
        _ => (-1, 1),
    }
}

/// The grid positions of the cells of the JSettlers board, water included, in
/// the order in which JSettlers lists them.
pub open spec fn js_layout_hex(index: usize) -> Option<(int, int)> {
    match index {
        0 => Some((-6, 6)),
        1 => Some((-2, 6)),
        2 => Some((2, 6)),
        3 => Some((6, 6)),
        4 => Some((-8, 4)),
        5 => Some((-4, 4)),
        6 => Some((0, 4)),
        7 => Some((4, 4)),
        8 => Some((8, 4)),
        9 => Some((-10, 2)),
        10 => Some((-6, 2)),
        11 => Some((-2, 2)),
        12 => Some((2, 2)),
        13 => Some((6, 2)),
        14 => Some((10, 2)),
        15 => Some((-12, 0)),
        16 => Some((-8, 0)),
        17 => Some((-4, 0)),
        18 => Some((0, 0)),
        19 => Some((4, 0)),
        20 => Some((8, 0)),
        21 => Some((12, 0)),
        22 => Some((-10, -2)),
        23 => Some((-6, -2)),
        24 => Some((-2, -2)),
        25 => Some((2, -2)),
        26 => Some((6, -2)),
        27 => Some((10, -2)),
        28 => Some((-8, -4)),
        29 => Some((-4, -4)),
        30 => Some((0, -4)),
        31 => Some((4, -4)),
        32 => Some((8, -4)),
        33 => Some((-6, -6)),
        34 => Some((-2, -6)),
        35 => Some((2, -6)),
        36 => Some((6, -6)),
        _ => None,
    }
}

/// The number of cells in row `row` of the JSettlers board, counted from the
/// top: four in the top and bottom rows, seven in the middle one.
pub open spec fn js_layout_row_length(row: int) -> int {
    if row <= 3 { 4 + row } else { 10 - row }
}

/// The place in the JSettlers list of the first cell of row `row`: the cells
/// of the rows above it come first.
pub open spec fn js_layout_row_start(row: int) -> int
    decreases row,
{
    if row <= 0 { 0 } else { js_layout_row_start(row - 1) + js_layout_row_length(row - 1) }
}

/// The JSettlers board lists its cells row by row from the top, each row from
/// left to right: the cell in column `col` of row `row` lies `2 * row` below
/// the top row, and each row is centered on the board, its cells four apart.
/// The seven rows hold the 37 cells of the list.
pub proof fn lemma_js_layout_rows(row: int, col: int)
    requires
        0 <= row < 7,
        0 <= col < js_layout_row_length(row),
    ensures
        js_layout_hex((js_layout_row_start(row) + col) as usize)
            == Some((4 * col - 2 * (js_layout_row_length(row) - 1), 6 - 2 * row)),
        js_layout_row_start(7) == 37,
{
    reveal_with_fuel(js_layout_row_start, 8);
    assert(js_layout_row_start(1) == 4);
    assert(js_layout_row_start(2) == 9);
    assert(js_layout_row_start(3) == 15);
    assert(js_layout_row_start(4) == 22);
    assert(js_layout_row_start(5) == 28);
    assert(js_layout_row_start(6) == 33);
    assert(js_layout_row_start(7) == 37);
}

/// The grid coordinate of a cell of the JSettlers board given by its place in
/// the list of cells.
pub fn js_index_to_rust_hex(index: usize) -> (r: Coord)
    requires
        index < 37,
    ensures
        js_layout_hex(index) == Some((r.x as int, r.y as int)),
{
    let (x, y): (i8, i8) = match index {
        0 => (-6, 6),
        1 => (-2, 6),
        2 => (2, 6),
        3 => (6, 6),
        4 => (-8, 4),
        5 => (-4, 4),
        6 => (0, 4),
        7 => (4, 4),
        8 => (8, 4),
        9 => (-10, 2),
        10 => (-6, 2),
        11 => (-2, 2),
        12 => (2, 2),
        13 => (6, 2),
        14 => (10, 2),
        15 => (-12, 0),
        16 => (-8, 0),
        17 => (-4, 0),
        18 => (0, 0),
        19 => (4, 0),
        20 => (8, 0),
        21 => (12, 0),
        22 => (-10, -2),
        23 => (-6, -2),
        24 => (-2, -2),
        25 => (2, -2),
        26 => (6, -2),
        27 => (10, -2),
        28 => (-8, -4),
        29 => (-4, -4),
        30 => (0, -4),
        31 => (4, -4),
        32 => (8, -4),
        33 => (-6, -6),
        34 => (-2, -6),
        35 => (2, -6),
        _ => (6, -6),
    };
    Coord { x, y }
}

/// Each JSettlers hex number names a hex of the grid, whose number is the
/// one it came from.
pub proof fn lemma_js_hex_round_trip(js: i32)
    requires
        js_hex_position(js) is Some,
    ensures
        ({
            let (x, y) = js_hex_position(js).unwrap();
            &&& hex_js_number(x as i8, y as i8) == Some(js)
            &&& Coord::at(x, y).type_of() == Type::Hex
        }),
{
}

/// Each hex of the board has a JSettlers number, which names that hex again.
pub proof fn lemma_hex_js_round_trip(x: i8, y: i8)
    requires
        hex_js_number(x, y) is Some,
    ensures
        js_hex_position(hex_js_number(x, y).unwrap()) == Some((x as int, y as int)),
{
}

/// Each JSettlers intersection number names an intersection of the grid,
/// whose number is the one it came from.
pub proof fn lemma_js_intersection_round_trip(js: i32)
    requires
        js_intersection_position(js) is Some,
    ensures
        ({
            let (x, y) = js_intersection_position(js).unwrap();
            &&& intersection_js_number(x as i8, y as i8) == Some(js)
            &&& Coord::at(x, y).type_of() == Type::Intersection
        }),
{
}

/// Each intersection of the board has a JSettlers number, which names that
/// intersection again.
pub proof fn lemma_intersection_js_round_trip(x: i8, y: i8)
    requires
        intersection_js_number(x, y) is Some,
    ensures
        js_intersection_position(intersection_js_number(x, y).unwrap()) == Some((x as int, y as int)),
{
}

/// Each JSettlers edge number names a path of the grid, whose edge number is
/// the one it came from.
pub proof fn lemma_js_edge_round_trip(js: i32)
    requires
        js_edge_position(js) is Some,
    ensures
        ({
            let (x, y) = js_edge_position(js).unwrap();
            &&& edge_js_number(x as i8, y as i8) == Some(js)
            &&& Coord::at(x, y).type_of() == Type::Path
        }),
{
}

/// Each path of the board has a JSettlers edge number, which names that path
/// again.
pub proof fn lemma_edge_js_round_trip(x: i8, y: i8)
    requires
        edge_js_number(x, y) is Some,
    ensures
        js_edge_position(edge_js_number(x, y).unwrap()) == Some((x as int, y as int)),
{
}

/// Resource numbers and resources convert into each other both ways.
pub proof fn lemma_js_resource_round_trip(js: i32, resource: Resource)
    ensures
        js_resource(js) is Some ==> resource_js_number(js_resource(js).unwrap()) == js,
        js_resource(resource_js_number(resource)) == Some(resource),
{
}

/// Every cell of the JSettlers board list is the center of a hex of the grid.
pub proof fn lemma_js_layout_cells_are_hexes(index: usize)
    requires
        index < 37,
    ensures
        ({
            let (x, y) = js_layout_hex(index).unwrap();
            Coord::at(x, y).type_of() == Type::Hex
        }),
{
}

/// A step in one of the six JSettlers directions leads from the center of a
/// hex to a path, the side of the hex on which a harbor stands.
pub proof fn lemma_js_direction_reaches_a_path(x: int, y: int, js_index: i32)
    requires
        i8::MIN + 2 <= x <= i8::MAX - 2,
        i8::MIN + 1 <= y <= i8::MAX - 1,
        Coord::at(x, y).type_of() == Type::Hex,
        js_direction(js_index) is Some,
    ensures
        ({
            let (dx, dy) = js_direction(js_index).unwrap();
            Coord::at(x + dx, y + dy).type_of() == Type::Path
        }),
{
}

} // verus!
