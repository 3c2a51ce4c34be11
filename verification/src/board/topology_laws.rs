use vstd::prelude::*;
use crate::board::coord::{Coord, DetailedType, Type};
use crate::board::topology::{neighbour_offsets, neighbours_defined, neighbours_of, offsets_fit};

verus! {

/// Every place listed as a neighbour of kind `n` is of kind `n`.
pub proof fn lemma_neighbours_have_requested_type(coord: Coord, center: Type, n: Type, i: int)
    requires
        neighbours_defined(coord, center, n),
        neighbours_of(coord, center, n) is Ok,
        0 <= i < neighbours_of(coord, center, n)->Ok_0.len(),
    ensures
        neighbours_of(coord, center, n)->Ok_0[i].type_of() == n,
{
    let offsets = neighbour_offsets(coord.detailed_type_of(), n).unwrap();
    assert(offsets_fit(coord, offsets));
    let o = offsets[i];
    let b = neighbours_of(coord, center, n)->Ok_0[i];
    assert(b == Coord::at(coord.x + o.0, coord.y + o.1));
    assert(b.x == coord.x + o.0 && b.y == coord.y + o.1);
}

/// Neighbourhood is symmetric: when `b` is listed among the neighbours of kind
/// `n` of the place `a` of kind `center`, then `a` is listed among the
/// neighbours of kind `center` of `b`.
pub proof fn lemma_neighbours_symmetric(a: Coord, center: Type, n: Type, i: int)
    requires
        neighbours_defined(a, center, n),
        neighbours_of(a, center, n) is Ok,
        0 <= i < neighbours_of(a, center, n)->Ok_0.len(),
        neighbours_defined(neighbours_of(a, center, n)->Ok_0[i], n, center),
    ensures
        neighbours_of(neighbours_of(a, center, n)->Ok_0[i], n, center) is Ok,
        neighbours_of(neighbours_of(a, center, n)->Ok_0[i], n, center)->Ok_0.contains(a),
{
    let offsets = neighbour_offsets(a.detailed_type_of(), n).unwrap();
    assert(offsets_fit(a, offsets));
    let o = offsets[i];
    let b = neighbours_of(a, center, n)->Ok_0[i];
    assert(b.x == a.x + o.0 && b.y == a.y + o.1);
    lemma_neighbours_have_requested_type(a, center, n, i);
    let back = neighbour_offsets(b.detailed_type_of(), center).unwrap();
    assert(offsets_fit(b, back));
    let s2 = neighbours_of(b, n, center)->Ok_0;
    assert(s2.len() == back.len());
    assert forall|j: int| 0 <= j < back.len() implies #[trigger] s2[j] == Coord::at(b.x + back[j].0, b.y + back[j].1) by {}
    assert(
        (0 < s2.len() && s2[0] == a) || (1 < s2.len() && s2[1] == a) || (2 < s2.len() && s2[2] == a)
        || (3 < s2.len() && s2[3] == a) || (4 < s2.len() && s2[4] == a) || (5 < s2.len() && s2[5] == a)
    );
}

/// The paths that touch a path are exactly the other paths that share one of
/// its two intersections; every path has four of them.
pub proof fn lemma_path_neighbours_share_an_intersection(p: Coord, q: Coord)
    requires
        p.type_of() == Type::Path,
        -100 <= p.x <= 100,
        -100 <= p.y <= 100,
    ensures
        ({
            let paths = neighbours_of(p, Type::Path, Type::Path)->Ok_0;
            let ends = neighbours_of(p, Type::Path, Type::Intersection)->Ok_0;
            &&& neighbours_of(p, Type::Path, Type::Path) is Ok
            &&& neighbours_of(p, Type::Path, Type::Intersection) is Ok
            &&& ends.len() == 2
            &&& paths.len() == 4
            &&& forall|k: int| 0 <= k < 2 ==> neighbours_of(#[trigger] ends[k], Type::Intersection, Type::Path) is Ok
            &&& (paths.contains(q) <==> q != p && exists|k: int|
                0 <= k < 2 && neighbours_of(#[trigger] ends[k], Type::Intersection, Type::Path)->Ok_0.contains(q))
        }),
{
    let paths = neighbours_of(p, Type::Path, Type::Path)->Ok_0;
    let ends = neighbours_of(p, Type::Path, Type::Intersection)->Ok_0;
    let d = p.detailed_type_of();
    assert(d == DetailedType::IPath || d == DetailedType::SPath || d == DetailedType::ZPath);
    let e0 = ends[0];
    let e1 = ends[1];
    let n0 = neighbours_of(e0, Type::Intersection, Type::Path)->Ok_0;
    let n1 = neighbours_of(e1, Type::Intersection, Type::Path)->Ok_0;
    if d == DetailedType::IPath {
        assert(e0 == Coord::at(p.x as int, p.y + 1) && e1 == Coord::at(p.x as int, p.y - 1));
        assert(e0.detailed_type_of() == DetailedType::VIntersection);
        assert(e1.detailed_type_of() == DetailedType::AIntersection);
        assert(n0 =~= seq![Coord::at(p.x + 1, p.y + 1), Coord::at(p.x - 1, p.y + 1), Coord::at(p.x as int, p.y as int)]);
        assert(n1 =~= seq![Coord::at(p.x + 1, p.y - 1), Coord::at(p.x as int, p.y as int), Coord::at(p.x - 1, p.y - 1)]);
        assert(paths =~= seq![Coord::at(p.x + 1, p.y + 1), Coord::at(p.x - 1, p.y + 1), Coord::at(p.x - 1, p.y - 1), Coord::at(p.x + 1, p.y - 1)]);
        assert forall|j: int| 0 <= j < 3 implies n0[j] == p || paths.contains(#[trigger] n0[j]) by {
            if j == 0 {
                assert(paths[0] == n0[0]);
            } else if j == 1 {
                assert(paths[1] == n0[1]);
            } else if j == 2 {
                assert(n0[2] == p);
            }
        }
        assert forall|j: int| 0 <= j < 3 implies n1[j] == p || paths.contains(#[trigger] n1[j]) by {
            if j == 0 {
                assert(paths[3] == n1[0]);
            } else if j == 1 {
                assert(n1[1] == p);
            } else if j == 2 {
                assert(paths[2] == n1[2]);
            }
        }
        assert forall|i: int| 0 <= i < 4 implies #[trigger] paths[i] != p && (n0.contains(paths[i]) || n1.contains(paths[i])) by {
            if i == 0 {
                assert(n0[0] == paths[0]);
            } else if i == 1 {
                assert(n0[1] == paths[1]);
            } else if i == 2 {
                assert(n1[2] == paths[2]);
            } else if i == 3 {
                assert(n1[0] == paths[3]);
            }
        }
    } else if d == DetailedType::SPath {
        assert(e0 == Coord::at(p.x + 1, p.y as int) && e1 == Coord::at(p.x - 1, p.y as int));
        assert(e0.detailed_type_of() == DetailedType::VIntersection);
        assert(e1.detailed_type_of() == DetailedType::AIntersection);
        assert(n0 =~= seq![Coord::at(p.x + 2, p.y as int), Coord::at(p.x as int, p.y as int), Coord::at(p.x + 1, p.y - 1)]);
        assert(n1 =~= seq![Coord::at(p.x as int, p.y as int), Coord::at(p.x - 1, p.y + 1), Coord::at(p.x - 2, p.y as int)]);
        assert(paths =~= seq![Coord::at(p.x + 2, p.y as int), Coord::at(p.x - 1, p.y + 1), Coord::at(p.x - 2, p.y as int), Coord::at(p.x + 1, p.y - 1)]);
        assert forall|j: int| 0 <= j < 3 implies n0[j] == p || paths.contains(#[trigger] n0[j]) by {
            if j == 0 {
                assert(paths[0] == n0[0]);
            } else if j == 1 {
                assert(n0[1] == p);
            } else if j == 2 {
                assert(paths[3] == n0[2]);
            }
        }
        assert forall|j: int| 0 <= j < 3 implies n1[j] == p || paths.contains(#[trigger] n1[j]) by {
            if j == 0 {
                assert(n1[0] == p);
            } else if j == 1 {
                assert(paths[1] == n1[1]);
            } else if j == 2 {
                assert(paths[2] == n1[2]);
            }
        }
        assert forall|i: int| 0 <= i < 4 implies #[trigger] paths[i] != p && (n0.contains(paths[i]) || n1.contains(paths[i])) by {
            if i == 0 {
                assert(n0[0] == paths[0]);
            } else if i == 1 {
                assert(n1[1] == paths[1]);
            } else if i == 2 {
                assert(n1[2] == paths[2]);
            } else if i == 3 {
                assert(n0[2] == paths[3]);
            }
        }
    } else {
        assert(e0 == Coord::at(p.x + 1, p.y as int) && e1 == Coord::at(p.x - 1, p.y as int));
        assert(e0.detailed_type_of() == DetailedType::AIntersection);
        assert(e1.detailed_type_of() == DetailedType::VIntersection);
        assert(n0 =~= seq![Coord::at(p.x + 2, p.y as int), Coord::at(p.x + 1, p.y + 1), Coord::at(p.x as int, p.y as int)]);
        assert(n1 =~= seq![Coord::at(p.x as int, p.y as int), Coord::at(p.x - 2, p.y as int), Coord::at(p.x - 1, p.y - 1)]);
        assert(paths =~= seq![Coord::at(p.x + 2, p.y as int), Coord::at(p.x + 1, p.y + 1), Coord::at(p.x - 2, p.y as int), Coord::at(p.x - 1, p.y - 1)]);
        assert forall|j: int| 0 <= j < 3 implies n0[j] == p || paths.contains(#[trigger] n0[j]) by {
            if j == 0 {
                assert(paths[0] == n0[0]);
            } else if j == 1 {
                assert(paths[1] == n0[1]);
            } else if j == 2 {
                assert(n0[2] == p);
            }
        }
        assert forall|j: int| 0 <= j < 3 implies n1[j] == p || paths.contains(#[trigger] n1[j]) by {
            if j == 0 {
                assert(n1[0] == p);
            } else if j == 1 {
                assert(paths[2] == n1[1]);
            } else if j == 2 {
                assert(paths[3] == n1[2]);
            }
        }
        assert forall|i: int| 0 <= i < 4 implies #[trigger] paths[i] != p && (n0.contains(paths[i]) || n1.contains(paths[i])) by {
            if i == 0 {
                assert(n0[0] == paths[0]);
            } else if i == 1 {
                assert(n0[1] == paths[1]);
            } else if i == 2 {
                assert(n1[1] == paths[2]);
            } else if i == 3 {
                assert(n1[2] == paths[3]);
            }
        }
    }
    assert(Coord::at(p.x as int, p.y as int) == p);
    if q != p && exists|k: int| 0 <= k < 2 && neighbours_of(#[trigger] ends[k], Type::Intersection, Type::Path)->Ok_0.contains(q) {
        let k = choose|k: int| 0 <= k < 2 && neighbours_of(#[trigger] ends[k], Type::Intersection, Type::Path)->Ok_0.contains(q);
        if k == 0 {
            let j = choose|j: int| 0 <= j < n0.len() && n0[j] == q;
            assert(n0[j] == p || paths.contains(n0[j]));
        } else {
            let j = choose|j: int| 0 <= j < n1.len() && n1[j] == q;
            assert(n1[j] == p || paths.contains(n1[j]));
        }
    }
    if paths.contains(q) {
        let i = choose|i: int| 0 <= i < paths.len() && paths[i] == q;
        assert(paths[i] != p && (n0.contains(paths[i]) || n1.contains(paths[i])));
        if n0.contains(q) {
            assert(neighbours_of(ends[0], Type::Intersection, Type::Path)->Ok_0.contains(q));
        } else {
            assert(neighbours_of(ends[1], Type::Intersection, Type::Path)->Ok_0.contains(q));
        }
    }
}

} // verus!
