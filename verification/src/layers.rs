use vstd::prelude::*;

use crate::action::{Axis, SliceTurn};
use crate::grid::{
    Cells, Grid, apply_swaps, embed, in_cube, layer_rotations, lemma_moved_by_swaps, moved, on_layer,
    swap_cells, turn, turn_source, turn_swaps, turned,
};
use crate::side::Sides;
use crate::solver::Solver;

verus! {

/// The values of a 3x3x3 array, indexed `[x][y][z]`, position by position.
pub open spec fn cells_of<T>(c: [[[T; 3]; 3]; 3]) -> Cells<T> {
    |x: int, y: int, z: int|
        if in_cube(x, y, z) {
            c[x][y][z]
        } else {
            vstd::pervasive::arbitrary()
        }
}

/// The position `(x, y, z)` of the point `(a, b)` of the layer at `index` along `axis`.
pub fn layer_position(axis: Axis, index: usize, a: usize, b: usize) -> (r: (usize, usize, usize))
    ensures
        (r.0 as int, r.1 as int, r.2 as int) == embed(axis, index as int, a as int, b as int),
{
    match axis {
        Axis::X => (index, a, b),
        Axis::Y => (a, index, b),
        Axis::Z => (a, b, index),
    }
}

/// Exchanges the values at two different positions.
fn swap<T: Copy>(cells: &mut [[[T; 3]; 3]; 3], index1: (usize, usize, usize), index2: (usize, usize, usize))
    requires
        index1 != index2,
        index1.0 < 3 && index1.1 < 3 && index1.2 < 3,
        index2.0 < 3 && index2.1 < 3 && index2.2 < 3,
    ensures
        cells_of(*final(cells)) == swap_cells(
            cells_of(*old(cells)),
            (index1.0 as int, index1.1 as int, index1.2 as int),
            (index2.0 as int, index2.1 as int, index2.2 as int),
        ),
{
    let first = cells[index1.0][index1.1][index1.2];
    let second = cells[index2.0][index2.1][index2.2];
    cells[index1.0][index1.1][index1.2] = second;
    cells[index2.0][index2.1][index2.2] = first;
    assert(cells_of(*cells) =~= swap_cells(
        cells_of(*old(cells)),
        (index1.0 as int, index1.1 as int, index1.2 as int),
        (index2.0 as int, index2.1 as int, index2.2 as int),
    ));
}

/// Moves the values of one layer a quarter of the way round, as the layer
/// turn `t` moves the small cubes, by the six exchanges of `Solver::rotations`
/// (about the y axis those of the other direction).
pub fn permute_layer<T: Copy>(cells: &mut [[[T; 3]; 3]; 3], t: SliceTurn)
    requires
        t.index < 3,
    ensures
        cells_of(*final(cells)) == moved(cells_of(*old(cells)), t),
{
    let ghost h = cells_of(*cells);
    let i = t.index;
    let rots = Solver::rotations(if t.axis == Axis::Y { !t.cw } else { t.cw });
    let ghost s = turn_swaps(t);
    for k in 0..6
        invariant
            t.index < 3,
            i == t.index,
            h == cells_of(*old(cells)),
            rots@ == layer_rotations(if t.axis == Axis::Y { !t.cw } else { t.cw }),
            s == turn_swaps(t),
            cells_of(*cells) == apply_swaps(h, s.take(k as int)),
    {
        let (f, to) = rots[k];
        let p = layer_position(t.axis, i, f.0, f.1);
        let q = layer_position(t.axis, i, to.0, to.1);
        proof {
            assert(s[k as int] == ((p.0 as int, p.1 as int, p.2 as int), (q.0 as int, q.1 as int, q.2 as int)));
            assert(f != to);
            assert(s.take(k + 1).drop_last() =~= s.take(k as int));
        }
        swap(cells, p, q);
    }
    proof {
        assert(s.take(6) =~= s);
        lemma_moved_by_swaps(h, t);
    }
}

/// The orientation seen at each position of a drawn cube whose small cubes,
/// numbered, stand as `placement` says and are oriented as `sides` says.
pub open spec fn placed_sides(placement: Cells<usize>, sides: spec_fn(int) -> Sides) -> Grid {
    |x: int, y: int, z: int|
        if in_cube(x, y, z) {
            sides(placement(x, y, z) as int)
        } else {
            vstd::pervasive::arbitrary()
        }
}

/// The numbered small cubes standing on the layer of `t` turned in place.
pub open spec fn turn_placed(placement: Cells<usize>, sides: spec_fn(int) -> Sides, t: SliceTurn) -> spec_fn(
    int,
) -> Sides {
    |n: int|
        if exists|x: int, y: int, z: int|
            in_cube(x, y, z) && on_layer(t.axis, t.index as int, x, y, z) && #[trigger] placement(x, y, z)
                == n {
            turned(sides(n), t.axis, t.cw)
        } else {
            sides(n)
        }
}

/// A drawn cube follows the model: when no two positions hold the same small
/// cube, turning in place the small cubes that stand on a layer and then
/// moving them round with `permute_layer` gives the orientations of the layer
/// turn of the cube they showed before.
pub proof fn law_drawn_cube_follows_turn(placement: Cells<usize>, sides: spec_fn(int) -> Sides, t: SliceTurn)
    requires
        t.index < 3,
        forall|x1: int, y1: int, z1: int, x2: int, y2: int, z2: int|
            in_cube(x1, y1, z1) && in_cube(x2, y2, z2) && #[trigger] placement(x1, y1, z1)
                == #[trigger] placement(x2, y2, z2) ==> x1 == x2 && y1 == y2 && z1 == z2,
    ensures
        placed_sides(moved(placement, t), turn_placed(placement, sides, t)) == turn(
            placed_sides(placement, sides),
            t,
        ),
{
    let lhs = placed_sides(moved(placement, t), turn_placed(placement, sides, t));
    let rhs = turn(placed_sides(placement, sides), t);
    assert forall|x: int, y: int, z: int| #[trigger] lhs(x, y, z) == rhs(x, y, z) by {
        if in_cube(x, y, z) {
            if on_layer(t.axis, t.index as int, x, y, z) {
                let p = turn_source(t, x, y, z);
                assert(in_cube(p.0, p.1, p.2) && on_layer(t.axis, t.index as int, p.0, p.1, p.2));
                assert(moved(placement, t)(x, y, z) == placement(p.0, p.1, p.2));
            } else {
                let n = placement(x, y, z) as int;
                if exists|a: int, b: int, c: int|
                    in_cube(a, b, c) && on_layer(t.axis, t.index as int, a, b, c) && #[trigger] placement(a, b, c)
                        == n {
                    let (a, b, c) = choose|a: int, b: int, c: int|
                        in_cube(a, b, c) && on_layer(t.axis, t.index as int, a, b, c) && #[trigger] placement(
                            a,
                            b,
                            c,
                        ) == n;
                    assert(placement(a, b, c) == placement(x, y, z));
                }
            }
        }
    }
    assert(lhs =~= rhs);
}

} // verus!
