use vstd::prelude::*;

use crate::action::{Axis, RubiksAction, SliceTurn, slice_turn};
use crate::side::{Sides, lemma_four_turns, lemma_turn_back};

verus! {

/// The state of the whole cube: the orientation of the small cube standing at
/// each position `(x, y, z)`, with `0 <= x, y, z < 3`.
pub type Grid = spec_fn(int, int, int) -> Sides;

/// A position in the 3x3x3 cube, as `(x, y, z)`.
pub type Pos = (int, int, int);

pub open spec fn in_cube(x: int, y: int, z: int) -> bool {
    0 <= x < 3 && 0 <= y < 3 && 0 <= z < 3
}

/// Whether `(x, y, z)` lies on the layer at `index` along `axis`.
pub open spec fn on_layer(axis: Axis, index: int, x: int, y: int, z: int) -> bool {
    match axis {
        Axis::X => x == index,
        Axis::Y => y == index,
        Axis::Z => z == index,
    }
}

/// A small cube's orientation after a quarter turn about `axis`.
pub open spec fn turned(s: Sides, axis: Axis, cw: bool) -> Sides {
    match axis {
        Axis::X => s.turned_x(cw),
        Axis::Y => s.turned_y(cw),
        Axis::Z => s.turned_z(cw),
    }
}

/// The position from which a layer turn brings a small cube to `(x, y, z)`,
/// for `(x, y, z)` on the turned layer.
pub open spec fn turn_source(t: SliceTurn, x: int, y: int, z: int) -> Pos {
    match t.axis {
        Axis::X => if t.cw { (x, 2 - z, y) } else { (x, z, 2 - y) },
        Axis::Y => if t.cw { (z, y, 2 - x) } else { (2 - z, y, x) },
        Axis::Z => if t.cw { (2 - y, x, z) } else { (y, 2 - x, z) },
    }
}

/// The cube after a quarter turn of one layer: every small cube of the layer
/// moves a quarter of the way round and turns with it; the rest stay.
pub open spec fn turn(g: Grid, t: SliceTurn) -> Grid {
    |x: int, y: int, z: int|
        if in_cube(x, y, z) && on_layer(t.axis, t.index as int, x, y, z) {
            let p = turn_source(t, x, y, z);
            turned(g(p.0, p.1, p.2), t.axis, t.cw)
        } else {
            g(x, y, z)
        }
}

/// The cube after a list of layer turns, made first to last.
pub open spec fn apply_turns(g: Grid, ts: Seq<SliceTurn>) -> Grid
    decreases ts.len(),
{
    if ts.len() == 0 {
        g
    } else {
        turn(apply_turns(g, ts.drop_last()), ts.last())
    }
}

/// The cube after a move.
pub open spec fn apply_action(g: Grid, a: RubiksAction) -> Grid {
    apply_turns(g, a.turns())
}

/// The cube after a list of moves, made first to last.
pub open spec fn apply_seq(g: Grid, v: Seq<RubiksAction>) -> Grid
    decreases v.len(),
{
    if v.len() == 0 {
        g
    } else {
        apply_seq(apply_action(g, v[0]), v.drop_first())
    }
}

/// A cube is solved when every small cube is oriented as the one in the middle.
pub open spec fn solved(g: Grid) -> bool {
    forall|x: int, y: int, z: int| #[trigger] in_cube(x, y, z) ==> g(x, y, z) == g(1, 1, 1)
}

/// A value for each position of the cube, such as the small cube standing there.
pub type Cells<T> = spec_fn(int, int, int) -> T;

/// The values at `p` and `q` exchanged.
pub open spec fn swap_cells<T>(g: Cells<T>, p: Pos, q: Pos) -> Cells<T> {
    |x: int, y: int, z: int|
        if (x, y, z) == p {
            g(q.0, q.1, q.2)
        } else if (x, y, z) == q {
            g(p.0, p.1, p.2)
        } else {
            g(x, y, z)
        }
}

/// The values after a list of exchanges, made first to last.
pub open spec fn apply_swaps<T>(g: Cells<T>, s: Seq<(Pos, Pos)>) -> Cells<T>
    decreases s.len(),
{
    if s.len() == 0 {
        g
    } else {
        let last = s.last();
        swap_cells(apply_swaps(g, s.drop_last()), last.0, last.1)
    }
}

/// The six exchanges, in coordinates within a layer, that move the corners
/// and the edges of a layer a quarter of the way round.
pub open spec fn cycle_swaps() -> Seq<((usize, usize), (usize, usize))> {
    seq![
        ((0usize, 2usize), (0usize, 0usize)),
        ((0usize, 0usize), (2usize, 0usize)),
        ((2usize, 0usize), (2usize, 2usize)),
        ((0usize, 1usize), (1usize, 0usize)),
        ((1usize, 0usize), (2usize, 1usize)),
        ((2usize, 1usize), (1usize, 2usize)),
    ]
}

/// The exchanges for one direction: the other direction makes them in reverse order.
pub open spec fn layer_rotations(cw: bool) -> Seq<((usize, usize), (usize, usize))> {
    if cw {
        cycle_swaps()
    } else {
        cycle_swaps().reverse()
    }
}

/// The position of the point `(a, b)` of the layer at `index` along `axis`.
pub open spec fn embed(axis: Axis, index: int, a: int, b: int) -> Pos {
    match axis {
        Axis::X => (index, a, b),
        Axis::Y => (a, index, b),
        Axis::Z => (a, b, index),
    }
}

/// Exchanges within a layer, as exchanges of positions of the cube.
pub open spec fn layer_swaps(
    axis: Axis,
    index: int,
    s: Seq<((usize, usize), (usize, usize))>,
) -> Seq<(Pos, Pos)> {
    s.map_values(
        |e: ((usize, usize), (usize, usize))|
            (embed(axis, index, e.0.0 as int, e.0.1 as int), embed(axis, index, e.1.0 as int, e.1.1 as int)),
    )
}

/// The coordinates of `(x, y, z)` within a layer perpendicular to `axis`.
pub open spec fn plane_coords(axis: Axis, x: int, y: int, z: int) -> (int, int) {
    match axis {
        Axis::X => (y, z),
        Axis::Y => (x, z),
        Axis::Z => (x, y),
    }
}

/// Every small cube of the turned layer turned in place.
pub open spec fn turn_in_place(g: Grid, t: SliceTurn) -> Grid {
    |x: int, y: int, z: int|
        if in_cube(x, y, z) && on_layer(t.axis, t.index as int, x, y, z) {
            turned(g(x, y, z), t.axis, t.cw)
        } else {
            g(x, y, z)
        }
}

/// The exchanges that carry out a layer turn once its cubes are turned in
/// place. About the y axis the exchanges of the other direction are used,
/// since the layer's coordinates `(x, z)` run the other way round.
pub open spec fn turn_swaps(t: SliceTurn) -> Seq<(Pos, Pos)> {
    layer_swaps(
        t.axis,
        t.index as int,
        layer_rotations(if t.axis == Axis::Y { !t.cw } else { t.cw }),
    )
}

/// Six exchanges made one after another.
proof fn lemma_six_swaps<T>(h: Cells<T>, s: Seq<(Pos, Pos)>)
    requires
        s.len() == 6,
    ensures
        apply_swaps(h, s) == swap_cells(
            swap_cells(
                swap_cells(
                    swap_cells(swap_cells(swap_cells(h, s[0].0, s[0].1), s[1].0, s[1].1), s[2].0, s[2].1),
                    s[3].0,
                    s[3].1,
                ),
                s[4].0,
                s[4].1,
            ),
            s[5].0,
            s[5].1,
        ),
{
    reveal_with_fuel(apply_swaps, 7);
    let s5 = s.drop_last();
    let s4 = s5.drop_last();
    let s3 = s4.drop_last();
    let s2 = s3.drop_last();
    let s1 = s2.drop_last();
    let s0 = s1.drop_last();
    assert(s0 =~= Seq::<(Pos, Pos)>::empty());
    assert(s1.last() == s[0]);
    assert(s2.last() == s[1]);
    assert(s3.last() == s[2]);
    assert(s4.last() == s[3]);
    assert(s5.last() == s[4]);
}

/// The exchanges of a layer turn, written out.
proof fn lemma_turn_swaps_explicit(t: SliceTurn)
    requires
        t.index < 3,
    ensures
        ({
            let s = turn_swaps(t);
            let i = t.index as int;
            let e = |a: int, b: int| embed(t.axis, i, a, b);
            &&& s.len() == 6
            &&& (if (t.axis == Axis::Y) != t.cw {
                &&& s[0] == (e(0, 2), e(0, 0))
                &&& s[1] == (e(0, 0), e(2, 0))
                &&& s[2] == (e(2, 0), e(2, 2))
                &&& s[3] == (e(0, 1), e(1, 0))
                &&& s[4] == (e(1, 0), e(2, 1))
                &&& s[5] == (e(2, 1), e(1, 2))
            } else {
                &&& s[0] == (e(2, 1), e(1, 2))
                &&& s[1] == (e(1, 0), e(2, 1))
                &&& s[2] == (e(0, 1), e(1, 0))
                &&& s[3] == (e(2, 0), e(2, 2))
                &&& s[4] == (e(0, 0), e(2, 0))
                &&& s[5] == (e(0, 2), e(0, 0))
            })
        }),
{
    assert(cycle_swaps().reverse() =~= seq![
        ((2usize, 1usize), (1usize, 2usize)),
        ((1usize, 0usize), (2usize, 1usize)),
        ((0usize, 1usize), (1usize, 0usize)),
        ((2usize, 0usize), (2usize, 2usize)),
        ((0usize, 0usize), (2usize, 0usize)),
        ((0usize, 2usize), (0usize, 0usize)),
    ]);
}

/// The values moved as a layer turn moves the small cubes, without turning them.
pub open spec fn moved<T>(g: Cells<T>, t: SliceTurn) -> Cells<T> {
    |x: int, y: int, z: int|
        if in_cube(x, y, z) && on_layer(t.axis, t.index as int, x, y, z) {
            let p = turn_source(t, x, y, z);
            g(p.0, p.1, p.2)
        } else {
            g(x, y, z)
        }
}

/// The six exchanges of a layer move the values of the layer a quarter of the way round.
pub proof fn lemma_moved_by_swaps<T>(h: Cells<T>, t: SliceTurn)
    requires
        t.index < 3,
    ensures
        apply_swaps(h, turn_swaps(t)) == moved(h, t),
{
    let s = turn_swaps(t);
    lemma_turn_swaps_explicit(t);
    lemma_six_swaps(h, s);
    let lhs = apply_swaps(h, s);
    let rhs = moved(h, t);
    assert forall|x: int, y: int, z: int| #[trigger] lhs(x, y, z) == rhs(x, y, z) by {
        lemma_moved_point(h, t, x, y, z);
    }
    assert(lhs =~= rhs);
}

/// A layer turn is its cubes turned in place, then moved round.
pub proof fn lemma_turn_as_moved(g: Grid, t: SliceTurn)
    ensures
        moved(turn_in_place(g, t), t) == turn(g, t),
{
    assert forall|x: int, y: int, z: int| in_cube(x, y, z) && on_layer(t.axis, t.index as int, x, y, z) implies
        #[trigger] on_layer(t.axis, t.index as int, turn_source(t, x, y, z).0, turn_source(t, x, y, z).1, turn_source(t, x, y, z).2)
        && in_cube(turn_source(t, x, y, z).0, turn_source(t, x, y, z).1, turn_source(t, x, y, z).2) by {}
    assert(moved(turn_in_place(g, t), t) =~= turn(g, t));
}

proof fn lemma_moved_point<T>(h: Cells<T>, t: SliceTurn, x: int, y: int, z: int)
    requires
        t.index < 3,
        turn_swaps(t).len() == 6,
    ensures
        ({
            let s = turn_swaps(t);
            swap_cells(
                swap_cells(
                    swap_cells(
                        swap_cells(swap_cells(swap_cells(h, s[0].0, s[0].1), s[1].0, s[1].1), s[2].0, s[2].1),
                        s[3].0,
                        s[3].1,
                    ),
                    s[4].0,
                    s[4].1,
                ),
                s[5].0,
                s[5].1,
            )(x, y, z) == moved(h, t)(x, y, z)
        }),
{
    lemma_turn_swaps_explicit(t);
    if in_cube(x, y, z) && on_layer(t.axis, t.index as int, x, y, z) {
        // one case for each of the nine points of the layer
        let c = plane_coords(t.axis, x, y, z);
        if c.0 == 0 {
            if c.1 == 0 {
            } else if c.1 == 1 {
            } else {
            }
        } else if c.0 == 1 {
            if c.1 == 0 {
            } else if c.1 == 1 {
            } else {
            }
        } else {
            if c.1 == 0 {
            } else if c.1 == 1 {
            } else {
            }
        }
    }
}

/// The same layer turn in the other direction.
pub open spec fn opposite(t: SliceTurn) -> SliceTurn {
    SliceTurn { axis: t.axis, index: t.index, cw: !t.cw }
}

/// A layer turn followed by the opposite turn of the same layer changes nothing.
pub proof fn lemma_turn_undo(g: Grid, t: SliceTurn)
    ensures
        turn(turn(g, t), opposite(t)) == g,
{
    let h = turn(turn(g, t), opposite(t));
    assert forall|x: int, y: int, z: int| #[trigger] h(x, y, z) == g(x, y, z) by {
        if in_cube(x, y, z) && on_layer(t.axis, t.index as int, x, y, z) {
            let p = turn_source(opposite(t), x, y, z);
            assert(turn_source(t, p.0, p.1, p.2) == (x, y, z));
            lemma_turn_back(g(x, y, z), t.cw);
        }
    }
    assert(h =~= g);
}

/// Turns of two different layers about the same axis can be made in either order.
pub proof fn lemma_turns_commute(g: Grid, t1: SliceTurn, t2: SliceTurn)
    requires
        t1.axis == t2.axis,
        t1.index != t2.index,
    ensures
        turn(turn(g, t1), t2) == turn(turn(g, t2), t1),
{
    assert(turn(turn(g, t1), t2) =~= turn(turn(g, t2), t1));
}

proof fn lemma_apply_one(g: Grid, t0: SliceTurn)
    ensures
        apply_turns(g, seq![t0]) == turn(g, t0),
{
    reveal_with_fuel(apply_turns, 2);
    assert(seq![t0].drop_last() =~= Seq::<SliceTurn>::empty());
}

proof fn lemma_apply_two(g: Grid, t0: SliceTurn, t1: SliceTurn)
    ensures
        apply_turns(g, seq![t0, t1]) == turn(turn(g, t0), t1),
{
    reveal_with_fuel(apply_turns, 3);
    assert(seq![t0, t1].drop_last() =~= seq![t0]);
    assert(seq![t0].drop_last() =~= Seq::<SliceTurn>::empty());
}

proof fn lemma_apply_three(g: Grid, t0: SliceTurn, t1: SliceTurn, t2: SliceTurn)
    ensures
        apply_turns(g, seq![t0, t1, t2]) == turn(turn(turn(g, t0), t1), t2),
{
    reveal_with_fuel(apply_turns, 4);
    assert(seq![t0, t1, t2].drop_last() =~= seq![t0, t1]);
    assert(seq![t0, t1].drop_last() =~= seq![t0]);
    assert(seq![t0].drop_last() =~= Seq::<SliceTurn>::empty());
}

/// A move followed by its inverse leaves the cube as it was.
pub proof fn law_action_then_inverse(g: Grid, a: RubiksAction)
    ensures
        apply_action(apply_action(g, a), a.inverted()) == g,
{
    let ts = a.turns();
    let us = a.inverted().turns();
    let g1 = apply_action(g, a);
    if ts.len() == 1 {
        assert(us =~= seq![opposite(ts[0])]);
        assert(ts =~= seq![ts[0]]);
        lemma_apply_one(g, ts[0]);
        lemma_apply_one(g1, us[0]);
        lemma_turn_undo(g, ts[0]);
    } else if ts.len() == 2 {
        let t0 = ts[0];
        let t1 = ts[1];
        assert(ts =~= seq![t0, t1]);
        assert(us =~= seq![opposite(t0), opposite(t1)]);
        lemma_apply_two(g, t0, t1);
        lemma_apply_two(g1, opposite(t0), opposite(t1));
        let a0 = turn(g, t0);
        lemma_turns_commute(a0, t1, opposite(t0));
        lemma_turn_undo(g, t0);
        lemma_turn_undo(g, t1);
    } else {
        let t0 = ts[0];
        let t1 = ts[1];
        let t2 = ts[2];
        assert(ts =~= seq![t0, t1, t2]);
        assert(us =~= seq![opposite(t0), opposite(t1), opposite(t2)]);
        lemma_apply_three(g, t0, t1, t2);
        lemma_apply_three(g1, opposite(t0), opposite(t1), opposite(t2));
        let a0 = turn(g, t0);
        let b1 = turn(a0, t1);
        // bring the opposite of t0 next to t0
        lemma_turns_commute(b1, t2, opposite(t0));
        lemma_turns_commute(a0, t1, opposite(t0));
        lemma_turn_undo(g, t0);
        // then the opposite of t1 next to t1
        let c1 = turn(g, t1);
        lemma_turns_commute(c1, t2, opposite(t1));
        lemma_turn_undo(g, t1);
        lemma_turn_undo(g, t2);
    }
}

/// A move made after its inverse leaves the cube as it was too.
pub proof fn law_inverse_then_action(g: Grid, a: RubiksAction)
    ensures
        apply_action(apply_action(g, a.inverted()), a) == g,
{
    law_action_then_inverse(g, a.inverted());
    assert(a.inverted().inverted() == a);
}

/// Making the moves of `v` and then the move `a` is making the moves of `v.push(a)`.
pub proof fn lemma_apply_seq_push(g: Grid, v: Seq<RubiksAction>, a: RubiksAction)
    ensures
        apply_seq(g, v.push(a)) == apply_action(apply_seq(g, v), a),
    decreases v.len(),
{
    if v.len() == 0 {
        assert(v.push(a).drop_first() =~= Seq::<RubiksAction>::empty());
        assert(v.push(a)[0] == a);
        assert(apply_seq(apply_action(g, a), Seq::<RubiksAction>::empty()) == apply_action(g, a));
    } else {
        assert(v.push(a).drop_first() =~= v.drop_first().push(a));
        lemma_apply_seq_push(apply_action(g, v[0]), v.drop_first(), a);
    }
}

/// A move is one, two or three layer turns made one after another.
pub proof fn lemma_apply_action_unfold(g: Grid, a: RubiksAction)
    ensures
        ({
            let ts = a.turns();
            &&& 1 <= ts.len() <= 3
            &&& ts.len() == 1 ==> apply_action(g, a) == turn(g, ts[0])
            &&& ts.len() == 2 ==> apply_action(g, a) == turn(turn(g, ts[0]), ts[1])
            &&& ts.len() == 3 ==> apply_action(g, a) == turn(turn(turn(g, ts[0]), ts[1]), ts[2])
        }),
{
    let ts = a.turns();
    if ts.len() == 1 {
        assert(ts =~= seq![ts[0]]);
        lemma_apply_one(g, ts[0]);
    } else if ts.len() == 2 {
        assert(ts =~= seq![ts[0], ts[1]]);
        lemma_apply_two(g, ts[0], ts[1]);
    } else {
        assert(ts =~= seq![ts[0], ts[1], ts[2]]);
        lemma_apply_three(g, ts[0], ts[1], ts[2]);
    }
}

/// Every small cube on the layer at `index` along `axis` is oriented as `v`.
pub open spec fn uniform_layer(h: Grid, axis: Axis, index: int, v: Sides) -> bool {
    forall|x: int, y: int, z: int|
        #![trigger h(x, y, z)]
        in_cube(x, y, z) && on_layer(axis, index, x, y, z) ==> h(x, y, z) == v
}

/// Turning a layer whose small cubes are all alike leaves them all alike,
/// turned; the other layers do not change.
proof fn lemma_turn_uniform_layer(h: Grid, t: SliceTurn, v: Sides, other: int, w: Sides)
    requires
        t.index < 3,
        uniform_layer(h, t.axis, t.index as int, v),
        other != t.index,
        uniform_layer(h, t.axis, other, w),
    ensures
        uniform_layer(turn(h, t), t.axis, t.index as int, turned(v, t.axis, t.cw)),
        uniform_layer(turn(h, t), t.axis, other, w),
{
    let h2 = turn(h, t);
    assert forall|x: int, y: int, z: int|
        in_cube(x, y, z) && on_layer(t.axis, t.index as int, x, y, z) implies #[trigger] h2(x, y, z) == turned(v, t.axis, t.cw) by {
        let p = turn_source(t, x, y, z);
        assert(in_cube(p.0, p.1, p.2) && on_layer(t.axis, t.index as int, p.0, p.1, p.2));
        assert(h(p.0, p.1, p.2) == v);
    }
}

/// Turning the whole cube keeps a solved cube solved: only the orientation
/// of the cube as a whole changes.
pub proof fn law_whole_cube_rotation_keeps_solved(g: Grid, a: RubiksAction)
    requires
        solved(g),
        a is RotateCubeX || a is RotateCubeY || a is RotateCubeZ,
    ensures
        solved(apply_action(g, a)),
{
    let c = g(1, 1, 1);
    lemma_apply_action_unfold(g, a);
    let ts = a.turns();
    let t0 = ts[0];
    let t1 = ts[1];
    let t2 = ts[2];
    let axis = t0.axis;
    let d = turned(c, axis, t0.cw);
    assert(uniform_layer(g, axis, 0, c));
    assert(uniform_layer(g, axis, 1, c));
    assert(uniform_layer(g, axis, 2, c));
    let g0 = turn(g, t0);
    lemma_turn_uniform_layer(g, t0, c, 1, c);
    lemma_turn_uniform_layer(g, t0, c, 2, c);
    let g1 = turn(g0, t1);
    lemma_turn_uniform_layer(g0, t1, c, 0, d);
    lemma_turn_uniform_layer(g0, t1, c, 2, c);
    let g2 = turn(g1, t2);
    lemma_turn_uniform_layer(g1, t2, c, 0, d);
    lemma_turn_uniform_layer(g1, t2, c, 1, d);
    assert forall|x: int, y: int, z: int| #[trigger] in_cube(x, y, z) implies g2(x, y, z) == d by {
        assert(on_layer(axis, 0, x, y, z) || on_layer(axis, 1, x, y, z) || on_layer(axis, 2, x, y, z));
    }
    assert(in_cube(1, 1, 1));
}

/// Making the moves of `s1` and then those of `s2` is making the moves of `s1 + s2`.
pub proof fn lemma_apply_seq_concat(g: Grid, s1: Seq<RubiksAction>, s2: Seq<RubiksAction>)
    ensures
        apply_seq(g, s1 + s2) == apply_seq(apply_seq(g, s1), s2),
    decreases s1.len(),
{
    if s1.len() == 0 {
        assert(s1 + s2 =~= s2);
    } else {
        assert((s1 + s2)[0] == s1[0]);
        assert((s1 + s2).drop_first() =~= s1.drop_first() + s2);
        lemma_apply_seq_concat(apply_action(g, s1[0]), s1.drop_first(), s2);
    }
}

/// `g` and `h` agree on every small cube of the layer at `m` along `axis`.
pub open spec fn agree_on_layer(g: Grid, h: Grid, axis: Axis, m: int) -> bool {
    forall|x: int, y: int, z: int|
        #![trigger g(x, y, z)]
        #![trigger h(x, y, z)]
        in_cube(x, y, z) && on_layer(axis, m, x, y, z) ==> g(x, y, z) == h(x, y, z)
}

/// The turns of `s` that turn the layer at `m`, in order.
pub open spec fn layer_turns(s: Seq<SliceTurn>, m: int) -> Seq<SliceTurn>
    decreases s.len(),
{
    if s.len() == 0 {
        s
    } else if s.last().index == m {
        layer_turns(s.drop_last(), m).push(s.last())
    } else {
        layer_turns(s.drop_last(), m)
    }
}

/// A turn about `axis` keeps two cubes that agree on a layer along `axis` in agreement there.
proof fn lemma_turn_keeps_agreement(g: Grid, h: Grid, t: SliceTurn, m: int)
    requires
        agree_on_layer(g, h, t.axis, m),
    ensures
        agree_on_layer(turn(g, t), turn(h, t), t.axis, m),
{
    assert forall|x: int, y: int, z: int|
        in_cube(x, y, z) && on_layer(t.axis, m, x, y, z) implies #[trigger] turn(g, t)(x, y, z) == turn(h, t)(x, y, z) by {
        if on_layer(t.axis, t.index as int, x, y, z) {
            let p = turn_source(t, x, y, z);
            assert(in_cube(p.0, p.1, p.2) && on_layer(t.axis, m, p.0, p.1, p.2));
            assert(g(p.0, p.1, p.2) == h(p.0, p.1, p.2));
        }
    }
}

/// A turn of another layer about the same axis leaves a layer as it was.
proof fn lemma_turn_other_layer(g: Grid, t: SliceTurn, m: int)
    requires
        t.index != m,
    ensures
        agree_on_layer(turn(g, t), g, t.axis, m),
{
}

/// Turns about one axis: on the layer at `m` only the turns of that layer count.
proof fn lemma_only_layer_turns_count(g: Grid, s: Seq<SliceTurn>, axis: Axis, m: int)
    requires
        forall|i: int| 0 <= i < s.len() ==> (#[trigger] s[i]).axis == axis,
    ensures
        agree_on_layer(apply_turns(g, s), apply_turns(g, layer_turns(s, m)), axis, m),
    decreases s.len(),
{
    if s.len() > 0 {
        let d = s.drop_last();
        assert forall|i: int| 0 <= i < d.len() implies (#[trigger] d[i]).axis == axis by {
            assert(d[i] == s[i]);
        }
        lemma_only_layer_turns_count(g, d, axis, m);
        let a = apply_turns(g, d);
        let b = apply_turns(g, layer_turns(d, m));
        let t = s.last();
        assert(t.axis == axis);
        if t.index == m {
            lemma_turn_keeps_agreement(a, b, t, m);
            assert(layer_turns(s, m).drop_last() =~= layer_turns(d, m));
        } else {
            lemma_turn_other_layer(a, t, m);
        }
    }
}

/// Turns never change the cube outside its 27 positions.
proof fn lemma_turns_outside(g: Grid, s: Seq<SliceTurn>, x: int, y: int, z: int)
    requires
        !in_cube(x, y, z),
    ensures
        apply_turns(g, s)(x, y, z) == g(x, y, z),
    decreases s.len(),
{
    if s.len() > 0 {
        lemma_turns_outside(g, s.drop_last(), x, y, z);
    }
}

/// Making the turns of `s1` and then those of `s2` is making the turns of `s1 + s2`.
proof fn lemma_apply_turns_concat(g: Grid, s1: Seq<SliceTurn>, s2: Seq<SliceTurn>)
    ensures
        apply_turns(g, s1 + s2) == apply_turns(apply_turns(g, s1), s2),
    decreases s2.len(),
{
    if s2.len() == 0 {
        assert(s1 + s2 =~= s1);
    } else {
        assert((s1 + s2).drop_last() =~= s1 + s2.drop_last());
        assert((s1 + s2).last() == s2.last());
        lemma_apply_turns_concat(g, s1, s2.drop_last());
    }
}

/// The turns of one layer in `s1 + s2` are its turns in `s1` followed by those in `s2`.
proof fn lemma_layer_turns_concat(s1: Seq<SliceTurn>, s2: Seq<SliceTurn>, m: int)
    ensures
        layer_turns(s1 + s2, m) == layer_turns(s1, m) + layer_turns(s2, m),
    decreases s2.len(),
{
    if s2.len() == 0 {
        assert(s1 + s2 =~= s1);
        assert(layer_turns(s1, m) + layer_turns(s2, m) =~= layer_turns(s1, m));
    } else {
        assert((s1 + s2).drop_last() =~= s1 + s2.drop_last());
        assert((s1 + s2).last() == s2.last());
        lemma_layer_turns_concat(s1, s2.drop_last(), m);
        if s2.last().index == m {
            assert(layer_turns(s1, m) + layer_turns(s2.drop_last(), m).push(s2.last()) =~= (layer_turns(
                s1,
                m,
            ) + layer_turns(s2.drop_last(), m)).push(s2.last()));
        }
    }
}

/// Four quarter turns of one layer in the same direction leave the cube as it was.
proof fn lemma_four_layer_turns(g: Grid, t: SliceTurn)
    ensures
        apply_turns(g, seq![t, t, t, t]) == g,
{
    reveal_with_fuel(apply_turns, 5);
    let s = seq![t, t, t, t];
    assert(s.drop_last() =~= seq![t, t, t]);
    assert(seq![t, t, t].drop_last() =~= seq![t, t]);
    assert(seq![t, t].drop_last() =~= seq![t]);
    assert(seq![t].drop_last() =~= Seq::<SliceTurn>::empty());
    let g1 = turn(g, t);
    let g2 = turn(g1, t);
    let g3 = turn(g2, t);
    let g4 = turn(g3, t);
    assert forall|x: int, y: int, z: int| #[trigger] g4(x, y, z) == g(x, y, z) by {
        if in_cube(x, y, z) && on_layer(t.axis, t.index as int, x, y, z) {
            let p1 = turn_source(t, x, y, z);
            let p2 = turn_source(t, p1.0, p1.1, p1.2);
            let p3 = turn_source(t, p2.0, p2.1, p2.2);
            let p4 = turn_source(t, p3.0, p3.1, p3.2);
            assert(in_cube(p1.0, p1.1, p1.2) && on_layer(t.axis, t.index as int, p1.0, p1.1, p1.2));
            assert(in_cube(p2.0, p2.1, p2.2) && on_layer(t.axis, t.index as int, p2.0, p2.1, p2.2));
            assert(in_cube(p3.0, p3.1, p3.2) && on_layer(t.axis, t.index as int, p3.0, p3.1, p3.2));
            assert(p4 == (x, y, z));
            lemma_four_turns(g(x, y, z), t.cw);
        }
    }
    assert(g4 =~= g);
}

/// Making any move four times leaves the cube as it was.
#[verifier::spinoff_prover]
pub proof fn law_four_applications(g: Grid, a: RubiksAction)
    ensures
        apply_action(apply_action(apply_action(apply_action(g, a), a), a), a) == g,
{
    let ts = a.turns();
    let t4 = ts + ts + ts + ts;
    lemma_apply_turns_concat(g, ts, ts);
    lemma_apply_turns_concat(g, ts + ts, ts);
    lemma_apply_turns_concat(g, ts + ts + ts, ts);
    let r = apply_turns(g, t4);
    let axis = ts[0].axis;
    reveal_with_fuel(layer_turns, 4);
    assert forall|k: int| 0 <= k < ts.len() implies (#[trigger] ts[k]).axis == axis by {}
    assert forall|i: int| 0 <= i < t4.len() implies (#[trigger] t4[i]).axis == axis by {
        let n = ts.len() as int;
        if i < n {
            assert(t4[i] == ts[i]);
        } else if i < 2 * n {
            assert(t4[i] == ts[i - n]);
        } else if i < 3 * n {
            assert(t4[i] == ts[i - 2 * n]);
        } else {
            assert(t4[i] == ts[i - 3 * n]);
        }
    }
    assert forall|m: int| 0 <= m < 3 implies agree_on_layer(r, g, axis, m) by {
        lemma_only_layer_turns_count(g, t4, axis, m);
        lemma_layer_turns_concat(ts, ts, m);
        lemma_layer_turns_concat(ts + ts, ts, m);
        lemma_layer_turns_concat(ts + ts + ts, ts, m);
        let l = layer_turns(ts, m);
        if ts.len() == 1 {
            assert(ts.drop_last() =~= Seq::<SliceTurn>::empty());
        } else if ts.len() == 2 {
            assert(ts.drop_last() =~= seq![ts[0]]);
            assert(seq![ts[0]].drop_last() =~= Seq::<SliceTurn>::empty());
        } else {
            assert(ts.drop_last() =~= seq![ts[0], ts[1]]);
            assert(seq![ts[0], ts[1]].drop_last() =~= seq![ts[0]]);
            assert(seq![ts[0]].drop_last() =~= Seq::<SliceTurn>::empty());
        }
        if l.len() == 0 {
            assert(l + l + l + l =~= Seq::<SliceTurn>::empty());
        } else {
            assert(l.len() == 1);
            assert(l + l + l + l =~= seq![l[0], l[0], l[0], l[0]]);
            lemma_four_layer_turns(g, l[0]);
        }
    }
    assert forall|x: int, y: int, z: int| #[trigger] r(x, y, z) == g(x, y, z) by {
        if in_cube(x, y, z) {
            let m = plane_layer_index(axis, x, y, z);
            assert(agree_on_layer(r, g, axis, m));
        } else {
            lemma_turns_outside(g, t4, x, y, z);
        }
    }
    assert(r =~= g);
}

/// The index, along `axis`, of the layer holding `(x, y, z)`.
pub open spec fn plane_layer_index(axis: Axis, x: int, y: int, z: int) -> int {
    match axis {
        Axis::X => x,
        Axis::Y => y,
        Axis::Z => z,
    }
}

/// Making three moves one after another.
proof fn lemma_apply_seq_three(g: Grid, a: RubiksAction, b: RubiksAction, c: RubiksAction)
    ensures
        apply_seq(g, seq![a, b, c]) == apply_action(apply_action(apply_action(g, a), b), c),
{
    reveal_with_fuel(apply_seq, 4);
    assert(seq![a, b, c].drop_first() =~= seq![b, c]);
    assert(seq![b, c].drop_first() =~= seq![c]);
    assert(seq![c].drop_first() =~= Seq::<RubiksAction>::empty());
}

/// Making two moves one after another.
proof fn lemma_apply_seq_two(g: Grid, a: RubiksAction, b: RubiksAction)
    ensures
        apply_seq(g, seq![a, b]) == apply_action(apply_action(g, a), b),
{
    reveal_with_fuel(apply_seq, 3);
    assert(seq![a, b].drop_first() =~= seq![b]);
    assert(seq![b].drop_first() =~= Seq::<RubiksAction>::empty());
}

/// The three layers along an axis, each turned the way the whole-cube
/// rotation turns it, make that rotation: `L M R'` is `x`, `D E U'` is `y`
/// and `B' S' F` is `z` (primes flip all together). So a face move and the
/// move of the opposite face turn their layers in opposite senses.
pub proof fn law_layers_make_whole_cube_turn(g: Grid, p: bool)
    ensures
        apply_seq(
            g,
            seq![
                RubiksAction::Left { prime: p, wide: false },
                RubiksAction::Middle { prime: p },
                RubiksAction::Right { prime: !p, wide: false },
            ],
        ) == apply_action(g, RubiksAction::RotateCubeX { prime: p }),
        apply_seq(
            g,
            seq![
                RubiksAction::Down { prime: p, wide: false },
                RubiksAction::Equatorial { prime: p },
                RubiksAction::Up { prime: !p, wide: false },
            ],
        ) == apply_action(g, RubiksAction::RotateCubeY { prime: p }),
        apply_seq(
            g,
            seq![
                RubiksAction::Back { prime: !p, wide: false },
                RubiksAction::Standing { prime: !p },
                RubiksAction::Front { prime: p, wide: false },
            ],
        ) == apply_action(g, RubiksAction::RotateCubeZ { prime: p }),
{
    let l = RubiksAction::Left { prime: p, wide: false };
    let m = RubiksAction::Middle { prime: p };
    let r = RubiksAction::Right { prime: !p, wide: false };
    let d = RubiksAction::Down { prime: p, wide: false };
    let e = RubiksAction::Equatorial { prime: p };
    let u = RubiksAction::Up { prime: !p, wide: false };
    let b = RubiksAction::Back { prime: !p, wide: false };
    let s = RubiksAction::Standing { prime: !p };
    let f = RubiksAction::Front { prime: p, wide: false };
    lemma_apply_seq_three(g, l, m, r);
    lemma_apply_seq_three(g, d, e, u);
    lemma_apply_seq_three(g, b, s, f);
    lemma_apply_action_unfold(g, l);
    lemma_apply_action_unfold(apply_action(g, l), m);
    lemma_apply_action_unfold(apply_action(apply_action(g, l), m), r);
    lemma_apply_action_unfold(g, RubiksAction::RotateCubeX { prime: p });
    lemma_apply_action_unfold(g, d);
    lemma_apply_action_unfold(apply_action(g, d), e);
    lemma_apply_action_unfold(apply_action(apply_action(g, d), e), u);
    lemma_apply_action_unfold(g, RubiksAction::RotateCubeY { prime: p });
    lemma_apply_action_unfold(g, b);
    lemma_apply_action_unfold(apply_action(g, b), s);
    lemma_apply_action_unfold(apply_action(apply_action(g, b), s), f);
    lemma_apply_action_unfold(g, RubiksAction::RotateCubeZ { prime: p });
}

/// A wide face move is the face move together with the middle layer next to
/// it, turned the same way.
pub proof fn law_wide_is_face_and_middle(g: Grid, p: bool)
    ensures
        apply_action(g, RubiksAction::Left { prime: p, wide: true }) == apply_seq(
            g,
            seq![RubiksAction::Left { prime: p, wide: false }, RubiksAction::Middle { prime: p }],
        ),
        apply_action(g, RubiksAction::Right { prime: p, wide: true }) == apply_seq(
            g,
            seq![RubiksAction::Right { prime: p, wide: false }, RubiksAction::Middle { prime: !p }],
        ),
        apply_action(g, RubiksAction::Down { prime: p, wide: true }) == apply_seq(
            g,
            seq![RubiksAction::Down { prime: p, wide: false }, RubiksAction::Equatorial { prime: p }],
        ),
        apply_action(g, RubiksAction::Up { prime: p, wide: true }) == apply_seq(
            g,
            seq![RubiksAction::Up { prime: p, wide: false }, RubiksAction::Equatorial { prime: !p }],
        ),
        apply_action(g, RubiksAction::Back { prime: p, wide: true }) == apply_seq(
            g,
            seq![RubiksAction::Back { prime: p, wide: false }, RubiksAction::Standing { prime: p }],
        ),
        apply_action(g, RubiksAction::Front { prime: p, wide: true }) == apply_seq(
            g,
            seq![RubiksAction::Front { prime: p, wide: false }, RubiksAction::Standing { prime: !p }],
        ),
{
    lemma_wide_pair(
        g,
        RubiksAction::Left { prime: p, wide: true },
        RubiksAction::Left { prime: p, wide: false },
        RubiksAction::Middle { prime: p },
    );
    lemma_wide_pair(
        g,
        RubiksAction::Right { prime: p, wide: true },
        RubiksAction::Right { prime: p, wide: false },
        RubiksAction::Middle { prime: !p },
    );
    lemma_wide_pair(
        g,
        RubiksAction::Down { prime: p, wide: true },
        RubiksAction::Down { prime: p, wide: false },
        RubiksAction::Equatorial { prime: p },
    );
    lemma_wide_pair(
        g,
        RubiksAction::Up { prime: p, wide: true },
        RubiksAction::Up { prime: p, wide: false },
        RubiksAction::Equatorial { prime: !p },
    );
    lemma_wide_pair(
        g,
        RubiksAction::Back { prime: p, wide: true },
        RubiksAction::Back { prime: p, wide: false },
        RubiksAction::Standing { prime: p },
    );
    lemma_wide_pair(
        g,
        RubiksAction::Front { prime: p, wide: true },
        RubiksAction::Front { prime: p, wide: false },
        RubiksAction::Standing { prime: !p },
    );
}

/// A two-turn move whose turns are those of two one-turn moves is those two moves.
proof fn lemma_wide_pair(g: Grid, w: RubiksAction, f: RubiksAction, s: RubiksAction)
    requires
        f.turns().len() == 1,
        s.turns().len() == 1,
        w.turns() == seq![f.turns()[0], s.turns()[0]],
    ensures
        apply_action(g, w) == apply_seq(g, seq![f, s]),
{
    lemma_apply_seq_two(g, f, s);
    lemma_apply_action_unfold(g, w);
    lemma_apply_action_unfold(g, f);
    lemma_apply_action_unfold(apply_action(g, f), s);
}

/// Which way each move turns, told by where it carries a small cube, and
/// which layer it turns: the cubes off that layer stay where they are.
pub proof fn law_move_directions(g: Grid)
    ensures
        // the top layer turns clockwise seen from above: the top-right cube comes to the top front
        apply_action(g, RubiksAction::Up { prime: false, wide: false })(1, 2, 2) == g(2, 2, 1).turned_y(true),
        forall|x: int, y: int, z: int|
            in_cube(x, y, z) && y != 2 ==> #[trigger] apply_action(g, RubiksAction::Up { prime: false, wide: false })(x, y, z)
                == g(x, y, z),
        // the bottom layer turns clockwise seen from below: the bottom-front cube comes to the bottom right
        apply_action(g, RubiksAction::Down { prime: false, wide: false })(2, 0, 1) == g(1, 0, 2).turned_y(false),
        forall|x: int, y: int, z: int|
            in_cube(x, y, z) && y != 0 ==> #[trigger] apply_action(g, RubiksAction::Down { prime: false, wide: false })(x, y, z)
                == g(x, y, z),
        // the right layer turns clockwise seen from the right: the right-front cube comes to the right top
        apply_action(g, RubiksAction::Right { prime: false, wide: false })(2, 2, 1) == g(2, 1, 2).turned_x(true),
        forall|x: int, y: int, z: int|
            in_cube(x, y, z) && x != 2 ==> #[trigger] apply_action(g, RubiksAction::Right { prime: false, wide: false })(x, y, z)
                == g(x, y, z),
        // the left layer turns clockwise seen from the left: the left-top cube comes to the left front
        apply_action(g, RubiksAction::Left { prime: false, wide: false })(0, 1, 2) == g(0, 2, 1).turned_x(false),
        forall|x: int, y: int, z: int|
            in_cube(x, y, z) && x != 0 ==> #[trigger] apply_action(g, RubiksAction::Left { prime: false, wide: false })(x, y, z)
                == g(x, y, z),
        // the front layer turns clockwise seen from the front: the front-top cube comes to the front right
        apply_action(g, RubiksAction::Front { prime: false, wide: false })(2, 1, 2) == g(1, 2, 2).turned_z(true),
        forall|x: int, y: int, z: int|
            in_cube(x, y, z) && z != 2 ==> #[trigger] apply_action(g, RubiksAction::Front { prime: false, wide: false })(x, y, z)
                == g(x, y, z),
        // the back layer turns clockwise seen from the back: the back-top cube comes to the back left
        apply_action(g, RubiksAction::Back { prime: false, wide: false })(0, 1, 0) == g(1, 2, 0).turned_z(false),
        forall|x: int, y: int, z: int|
            in_cube(x, y, z) && z != 0 ==> #[trigger] apply_action(g, RubiksAction::Back { prime: false, wide: false })(x, y, z)
                == g(x, y, z),
        // the middle layer between left and right turns as L does: the top middle cube comes to the front
        apply_action(g, RubiksAction::Middle { prime: false })(1, 1, 2) == g(1, 2, 1).turned_x(false),
        forall|x: int, y: int, z: int|
            in_cube(x, y, z) && x != 1 ==> #[trigger] apply_action(g, RubiksAction::Middle { prime: false })(x, y, z)
                == g(x, y, z),
        // the layer between up and down turns as D does: the front middle cube comes to the right
        apply_action(g, RubiksAction::Equatorial { prime: false })(2, 1, 1) == g(1, 1, 2).turned_y(false),
        forall|x: int, y: int, z: int|
            in_cube(x, y, z) && y != 1 ==> #[trigger] apply_action(g, RubiksAction::Equatorial { prime: false })(x, y, z)
                == g(x, y, z),
        // the layer between front and back turns as B does: the top middle cube comes to the left
        apply_action(g, RubiksAction::Standing { prime: false })(0, 1, 1) == g(1, 2, 1).turned_z(false),
        forall|x: int, y: int, z: int|
            in_cube(x, y, z) && z != 1 ==> #[trigger] apply_action(g, RubiksAction::Standing { prime: false })(x, y, z)
                == g(x, y, z),
{
    lemma_apply_action_unfold(g, RubiksAction::Up { prime: false, wide: false });
    lemma_apply_action_unfold(g, RubiksAction::Down { prime: false, wide: false });
    lemma_apply_action_unfold(g, RubiksAction::Right { prime: false, wide: false });
    lemma_apply_action_unfold(g, RubiksAction::Left { prime: false, wide: false });
    lemma_apply_action_unfold(g, RubiksAction::Front { prime: false, wide: false });
    lemma_apply_action_unfold(g, RubiksAction::Back { prime: false, wide: false });
    lemma_apply_action_unfold(g, RubiksAction::Middle { prime: false });
    lemma_apply_action_unfold(g, RubiksAction::Equatorial { prime: false });
    lemma_apply_action_unfold(g, RubiksAction::Standing { prime: false });
}

/// Which way each whole-cube rotation turns: `x` as L, `y` as D, `z` as F.
pub proof fn law_rotation_directions(g: Grid)
    ensures
        apply_action(g, RubiksAction::RotateCubeX { prime: false })(1, 1, 2) == g(1, 2, 1).turned_x(false),
        apply_action(g, RubiksAction::RotateCubeY { prime: false })(2, 1, 1) == g(1, 1, 2).turned_y(false),
        apply_action(g, RubiksAction::RotateCubeZ { prime: false })(2, 1, 1) == g(1, 2, 1).turned_z(true),
{
    lemma_apply_action_unfold(g, RubiksAction::RotateCubeX { prime: false });
    lemma_apply_action_unfold(g, RubiksAction::RotateCubeY { prime: false });
    lemma_apply_action_unfold(g, RubiksAction::RotateCubeZ { prime: false });
}

} // verus!
