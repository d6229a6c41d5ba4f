use vstd::prelude::*;

use std::sync::Arc;
use std::sync::atomic::AtomicBool;

use crate::action::{Axis, RubiksAction, SliceTurn};
use crate::grid::{
    Grid, apply_action, apply_seq, in_cube, layer_rotations, lemma_apply_action_unfold,
    lemma_turn_as_moved, on_layer, plane_coords, solved, turn, turn_in_place, turned,
};
use crate::layers::{cells_of, layer_position, permute_layer};
use crate::side::Sides;

verus! {

/// The orientation of each of the 27 small cubes, indexed `[x][y][z]`.
#[derive(Clone, Copy, PartialEq, Eq, Debug)]
pub struct Solver {
    pub cubes: [[[Sides; 3]; 3]; 3],
}

/// A small cube turned a quarter about `axis`.
fn rotated(s: Sides, axis: Axis, cw: bool) -> (r: Sides)
    ensures
        r == turned(s, axis, cw),
{
    match axis {
        Axis::X => s.rotated_x(cw),
        Axis::Y => s.rotated_y(cw),
        Axis::Z => s.rotated_z(cw),
    }
}

/// The cube with the small cubes of the layer of `t` turned in place at the
/// layer points before `(a, b)` (row by row).
pub open spec fn turned_before(g: Grid, t: SliceTurn, a: int, b: int) -> Grid {
    |x: int, y: int, z: int|
        if in_cube(x, y, z) && on_layer(t.axis, t.index as int, x, y, z) && ({
            let c = plane_coords(t.axis, x, y, z);
            c.0 < a || (c.0 == a && c.1 < b)
        }) {
            turned(g(x, y, z), t.axis, t.cw)
        } else {
            g(x, y, z)
        }
}

impl Solver {
    /// The cube this solver holds.
    pub open spec fn grid(self) -> Grid {
        cells_of(self.cubes)
    }

    /// Whether every small cube is oriented as the one in the middle.
    pub fn is_solved(&self) -> (r: bool)
        ensures
            r == solved(self.grid()),
    {
        let center = self.cubes[1][1][1];
        for x in 0..3
            invariant
                center == self.grid()(1, 1, 1),
                forall|a: int, b: int, c: int|
                    #![trigger self.grid()(a, b, c)]
                    in_cube(a, b, c) && a < x ==> self.grid()(a, b, c) == center,
        {
            for y in 0..3
                invariant
                    0 <= x < 3,
                    center == self.grid()(1, 1, 1),
                    forall|a: int, b: int, c: int|
                        #![trigger self.grid()(a, b, c)]
                        in_cube(a, b, c) && (a < x || (a == x && b < y)) ==> self.grid()(a, b, c)
                            == center,
            {
                for z in 0..3
                    invariant
                        0 <= x < 3,
                        0 <= y < 3,
                        center == self.grid()(1, 1, 1),
                        forall|a: int, b: int, c: int|
                            #![trigger self.grid()(a, b, c)]
                            in_cube(a, b, c) && (a < x || (a == x && b < y) || (a == x && b == y
                                && c < z)) ==> self.grid()(a, b, c) == center,
                {
                    if self.cubes[x][y][z] != center {
                        assert(in_cube(x as int, y as int, z as int));
                        assert(self.grid()(x as int, y as int, z as int) != self.grid()(1, 1, 1));
                        return false;
                    }
                }
            }
        }
        assert forall|a: int, b: int, c: int| #[trigger] in_cube(a, b, c) implies self.grid()(a, b, c)
            == self.grid()(1, 1, 1) by {
            assert(self.grid()(a, b, c) == center);
        }
        true
    }

    /// The exchanges, within a layer, that move its small cubes a quarter of
    /// the way round: clockwise when `cw` holds, else the same in reverse order.
    pub fn rotations(cw: bool) -> (r: [((usize, usize), (usize, usize)); 6])
        ensures
            r@ == layer_rotations(cw),
    {
        if cw {
            let r = [
                ((0, 2), (0, 0)),
                ((0, 0), (2, 0)),
                ((2, 0), (2, 2)),
                ((0, 1), (1, 0)),
                ((1, 0), (2, 1)),
                ((2, 1), (1, 2)),
            ];
            assert(r@ =~= layer_rotations(cw));
            r
        } else {
            let r = [
                ((2, 1), (1, 2)),
                ((1, 0), (2, 1)),
                ((0, 1), (1, 0)),
                ((2, 0), (2, 2)),
                ((0, 0), (2, 0)),
                ((0, 2), (0, 0)),
            ];
            assert(r@ =~= layer_rotations(cw));
            r
        }
    }

    /// Turns one layer a quarter: its small cubes turn in place, then move
    /// round by the exchanges of `rotations` (see `permute_layer`).
    fn turn_layer(&mut self, t: SliceTurn)
        requires
            t.index < 3,
        ensures
            final(self).grid() == turn(old(self).grid(), t),
    {
        let ghost g0 = self.grid();
        let i = t.index;
        for a in 0..3
            invariant
                t.index < 3,
                i == t.index,
                g0 == old(self).grid(),
                self.grid() == turned_before(g0, t, a as int, 0),
        {
            for b in 0..3
                invariant
                    t.index < 3,
                    i == t.index,
                    0 <= a < 3,
                    self.grid() == turned_before(g0, t, a as int, b as int),
            {
                let p = layer_position(t.axis, i, a, b);
                proof {
                    assert(plane_coords(t.axis, p.0 as int, p.1 as int, p.2 as int) == (a as int, b as int));
                    assert(on_layer(t.axis, i as int, p.0 as int, p.1 as int, p.2 as int));
                    assert(self.grid()(p.0 as int, p.1 as int, p.2 as int) == g0(p.0 as int, p.1 as int, p.2 as int));
                }
                let ghost before = self.grid();
                let s = rotated(self.cubes[p.0][p.1][p.2], t.axis, t.cw);
                self.cubes[p.0][p.1][p.2] = s;
                assert forall|x: int, y: int, z: int|
                    self.grid()(x, y, z) == #[trigger] turned_before(g0, t, a as int, b + 1)(x, y, z) by {
                    if (x, y, z) != (p.0 as int, p.1 as int, p.2 as int) {
                        assert(self.grid()(x, y, z) == before(x, y, z));
                    }
                }
                assert(self.grid() =~= turned_before(g0, t, a as int, b + 1));
            }
            assert(turned_before(g0, t, a as int, 3) =~= turned_before(g0, t, a + 1, 0));
        }
        assert(turned_before(g0, t, 3, 0) =~= turn_in_place(g0, t));
        permute_layer(&mut self.cubes, t);
        proof {
            lemma_turn_as_moved(g0, t);
        }
    }

    fn rotate_x(&mut self, i: usize, cw: bool)
        requires
            i < 3,
        ensures
            final(self).grid() == turn(old(self).grid(), SliceTurn { axis: Axis::X, index: i, cw }),
    {
        self.turn_layer(SliceTurn { axis: Axis::X, index: i, cw });
    }

    fn rotate_y(&mut self, i: usize, cw: bool)
        requires
            i < 3,
        ensures
            final(self).grid() == turn(old(self).grid(), SliceTurn { axis: Axis::Y, index: i, cw }),
    {
        self.turn_layer(SliceTurn { axis: Axis::Y, index: i, cw });
    }

    fn rotate_z(&mut self, i: usize, cw: bool)
        requires
            i < 3,
        ensures
            final(self).grid() == turn(old(self).grid(), SliceTurn { axis: Axis::Z, index: i, cw }),
    {
        self.turn_layer(SliceTurn { axis: Axis::Z, index: i, cw });
    }

    /// Searches, depth first, the lists of `max_depth - cur_depth + 1` tried
    /// moves that solve the cube, in the solver's order, and returns the first,
    /// last move first. A set cancel flag, read before each deeper step, stops
    /// the search with no result; the last level reads no flag.
    fn try_solve_recursive(
        self,
        cur_depth: usize,
        max_depth: usize,
        cancel_flag_opt: &Option<Arc<AtomicBool>>,
    ) -> (r: Option<Vec<RubiksAction>>)
        requires
            cur_depth <= max_depth,
            max_depth - cur_depth < usize::MAX,
        ensures
            r matches Some(v) ==> v@.len() == max_depth - cur_depth + 1 && is_solution(
                self.grid(),
                v@.reverse(),
            ),
            cancel_flag_opt is None || cur_depth == max_depth ==> (r is None <==> forall|
                w: Seq<RubiksAction>,
            |
                w.len() == max_depth - cur_depth + 1 ==> !#[trigger] is_solution(self.grid(), w)),
            cancel_flag_opt is None || cur_depth == max_depth ==> (r matches Some(v) ==> forall|
                w: Seq<RubiksAction>,
            |
                #[trigger] is_solution(self.grid(), w) && w.len() == v@.len() ==> lex_le(
                    v@.reverse(),
                    w,
                )),
        decreases max_depth - cur_depth,
    {
        let actions = [
            RubiksAction::Left { prime: false, wide: false },
            RubiksAction::Right { prime: false, wide: false },
            RubiksAction::Down { prime: false, wide: false },
            RubiksAction::Up { prime: false, wide: false },
            RubiksAction::Back { prime: false, wide: false },
            RubiksAction::Front { prime: false, wide: false },
            RubiksAction::Middle { prime: false },
            RubiksAction::Equatorial { prime: false },
            RubiksAction::Standing { prime: false },
            RubiksAction::Left { prime: true, wide: false },
            RubiksAction::Right { prime: true, wide: false },
            RubiksAction::Down { prime: true, wide: false },
            RubiksAction::Up { prime: true, wide: false },
            RubiksAction::Back { prime: true, wide: false },
            RubiksAction::Front { prime: true, wide: false },
            RubiksAction::Middle { prime: true },
            RubiksAction::Equatorial { prime: true },
            RubiksAction::Standing { prime: true },
        ];
        assert forall|jj: int| 0 <= jj < 18 implies actions@[jj] == basic_move(jj) by {
            assert(actions@[jj] == actions[jj]);
        }
        let ghost g = self.grid();
        let ghost k: int = max_depth - cur_depth + 1;
        for j in 0..18
            invariant
                cur_depth <= max_depth,
                max_depth - cur_depth < usize::MAX,
                g == self.grid(),
                k == max_depth - cur_depth + 1,
                forall|jj: int| 0 <= jj < 18 ==> actions@[jj] == basic_move(jj),
                cancel_flag_opt is None || cur_depth == max_depth ==> forall|w: Seq<RubiksAction>|
                    #[trigger] is_solution(g, w) && w.len() == k ==> move_rank(w[0]) >= j,
        {
            let action = actions[j];
            let mut copy = self;
            copy.apply(action);
            proof {
                lemma_basic_move_rank(action, j as int);
            }
            if cur_depth == max_depth {
                if copy.is_solved() {
                    let mut result: Vec<RubiksAction> = Vec::new();
                    result.push(action);
                    proof {
                        let v = result@.reverse();
                        assert(v =~= seq![action]);
                        assert(v.drop_first() =~= Seq::<RubiksAction>::empty());
                        lemma_solution_cons(g, v);
                        lemma_empty_solution(copy.grid(), v.drop_first());
                        assert forall|w: Seq<RubiksAction>|
                            #[trigger] is_solution(g, w) && w.len() == v.len() implies lex_le(v, w) by {
                            lemma_solution_cons(g, w);
                            lemma_lex_first(v, w, j as int);
                        }
                    }
                    return Some(result);
                }
                proof {
                    assert forall|w: Seq<RubiksAction>|
                        #[trigger] is_solution(g, w) && w.len() == k implies move_rank(w[0]) >= j + 1 by {
                        lemma_solution_cons(g, w);
                        lemma_basic_move_rank(w[0], j as int);
                        if move_rank(w[0]) == j {
                            lemma_empty_solution(copy.grid(), w.drop_first());
                        }
                    }
                }
            } else {
                if cancel_requested(cancel_flag_opt) {
                    return None;
                }
                match copy.try_solve_recursive(cur_depth + 1, max_depth, cancel_flag_opt) {
                    Some(mut result) => {
                        let ghost sub = result@;
                        result.push(action);
                        proof {
                            let v = result@.reverse();
                            assert(v =~= seq![action] + sub.reverse());
                            assert(v.drop_first() =~= sub.reverse());
                            lemma_solution_cons(g, v);
                            if cancel_flag_opt is None {
                                assert forall|w: Seq<RubiksAction>|
                                    #[trigger] is_solution(g, w) && w.len() == v.len() implies lex_le(v, w) by {
                                    lemma_solution_cons(g, w);
                                    lemma_lex_first(v, w, j as int);
                                }
                            }
                        }
                        return Some(result);
                    },
                    None => {
                        proof {
                            if cancel_flag_opt is None {
                                assert forall|w: Seq<RubiksAction>|
                                    #[trigger] is_solution(g, w) && w.len() == k implies move_rank(w[0]) >= j + 1 by {
                                    lemma_solution_cons(g, w);
                                    lemma_basic_move_rank(w[0], j as int);
                                }
                            }
                        }
                    },
                }
            }
        }
        proof {
            if cancel_flag_opt is None || cur_depth == max_depth {
                assert forall|w: Seq<RubiksAction>| w.len() == k implies !#[trigger] is_solution(g, w) by {
                    if is_solution(g, w) {
                        assert(is_basic_move(w[0]));
                    }
                }
            }
        }
        None
    }

    /// Looks for the shortest list of at most `max_depth` quarter turns
    /// (`L R D U B F M E S` and their primes) that solves the cube, trying the
    /// lengths one by one and, within a length, the lists in the solver's
    /// order. An already solved cube gets the empty list; `max_depth == 0`
    /// gets nothing. A set cancel flag stops the search early, with nothing
    /// or with a solution found before it was read; the one-move search never
    /// reads it, so a cube one move from solved always gets its first solution.
    pub fn try_solve(&self, max_depth: usize, cancel_flag_opt: &Option<Arc<AtomicBool>>) -> (r:
        Option<Vec<RubiksAction>>)
        ensures
            max_depth == 0 ==> r is None,
            r matches Some(v) ==> v@.len() <= max_depth && is_solution(self.grid(), v@),
            max_depth > 0 && solved(self.grid()) ==> (r matches Some(v) && v@.len() == 0),
            cancel_flag_opt is None ==> (r is None <==> (max_depth == 0 || forall|w: Seq<RubiksAction>|
                w.len() <= max_depth ==> !#[trigger] is_solution(self.grid(), w))),
            cancel_flag_opt is None ==> (r matches Some(v) ==> is_first_solution(self.grid(), v@)),
            max_depth > 0 && (exists|w: Seq<RubiksAction>| w.len() <= 1 && #[trigger] is_solution(
                self.grid(),
                w,
            )) ==> (r matches Some(v) && is_first_solution(self.grid(), v@)),
    {
        if max_depth == 0 {
            return None;
        }
        let ghost g = self.grid();
        if self.is_solved() {
            let v: Vec<RubiksAction> = Vec::new();
            proof {
                lemma_empty_solution(g, v@);
                assert forall|w: Seq<RubiksAction>| #[trigger]
                    is_solution(g, w) implies v@.len() <= w.len() && (w.len() == v@.len() ==> lex_le(
                    v@,
                    w,
                )) by {}
            }
            return Some(v);
        }
        let mut i: usize = 1;
        proof {
            assert forall|w: Seq<RubiksAction>| #[trigger] is_solution(g, w) implies w.len() >= 1 by {
                if w.len() == 0 {
                    lemma_empty_solution(g, w);
                }
            }
        }
        loop
            invariant
                1 <= i <= max_depth,
                g == self.grid(),
                !solved(g),
                cancel_flag_opt is None || i == 1 ==> forall|w: Seq<RubiksAction>| #[trigger]
                    is_solution(g, w) ==> w.len() >= i,
                i > 1 ==> forall|w: Seq<RubiksAction>| w.len() <= 1 ==> !#[trigger] is_solution(g, w),
            decreases max_depth - i,
        {
            if let Some(result) = self.try_solve_recursive(1, i, cancel_flag_opt) {
                let v = reversed(result);
                return Some(v);
            }
            proof {
                if i == 1 {
                    assert forall|w: Seq<RubiksAction>| w.len() <= 1 implies !#[trigger] is_solution(g, w) by {
                        if w.len() == 0 {
                            lemma_empty_solution(g, w);
                        }
                    }
                }
                if cancel_flag_opt is None {
                    assert forall|w: Seq<RubiksAction>| #[trigger] is_solution(g, w) implies w.len() >= i + 1 by {
                        if w.len() == i {
                            assert(!is_solution(g, w));
                        }
                    }
                }
            }
            if i == max_depth {
                return None;
            }
            i += 1;
        }
    }

    /// Makes a move.
    pub fn apply(&mut self, action: RubiksAction)
        ensures
            final(self).grid() == apply_action(old(self).grid(), action),
    {
        proof {
            lemma_apply_action_unfold(self.grid(), action);
        }
        match action {
            RubiksAction::Left { prime, wide } => {
                self.rotate_x(0, prime);
                if wide {
                    self.rotate_x(1, prime);
                }
            },
            RubiksAction::Right { prime, wide } => {
                self.rotate_x(2, !prime);
                if wide {
                    self.rotate_x(1, !prime);
                }
            },
            RubiksAction::Down { prime, wide } => {
                self.rotate_y(0, prime);
                if wide {
                    self.rotate_y(1, prime);
                }
            },
            RubiksAction::Up { prime, wide } => {
                self.rotate_y(2, !prime);
                if wide {
                    self.rotate_y(1, !prime);
                }
            },
            RubiksAction::Back { prime, wide } => {
                self.rotate_z(0, prime);
                if wide {
                    self.rotate_z(1, prime);
                }
            },
            RubiksAction::Front { prime, wide } => {
                self.rotate_z(2, !prime);
                if wide {
                    self.rotate_z(1, !prime);
                }
            },
            RubiksAction::Middle { prime } => {
                self.rotate_x(1, prime);
            },
            RubiksAction::Equatorial { prime } => {
                self.rotate_y(1, prime);
            },
            RubiksAction::Standing { prime } => {
                self.rotate_z(1, prime);
            },
            RubiksAction::RotateCubeX { prime } => {
                self.rotate_x(0, prime);
                self.rotate_x(1, prime);
                self.rotate_x(2, prime);
            },
            RubiksAction::RotateCubeY { prime } => {
                self.rotate_y(0, prime);
                self.rotate_y(1, prime);
                self.rotate_y(2, prime);
            },
            RubiksAction::RotateCubeZ { prime } => {
                self.rotate_z(0, !prime);
                self.rotate_z(1, !prime);
                self.rotate_z(2, !prime);
            },
        }
    }
}

/// The place of a move in the order the solver tries them: the nine quarter
/// turns `L R D U B F M E S`, then the same nine primed. Any other move
/// (wide moves, whole-cube rotations) is not tried and ranks 18.
pub open spec fn move_rank(a: RubiksAction) -> int {
    match a {
        RubiksAction::Left { prime, wide } => if wide { 18 } else if prime { 9 } else { 0 },
        RubiksAction::Right { prime, wide } => if wide { 18 } else if prime { 10 } else { 1 },
        RubiksAction::Down { prime, wide } => if wide { 18 } else if prime { 11 } else { 2 },
        RubiksAction::Up { prime, wide } => if wide { 18 } else if prime { 12 } else { 3 },
        RubiksAction::Back { prime, wide } => if wide { 18 } else if prime { 13 } else { 4 },
        RubiksAction::Front { prime, wide } => if wide { 18 } else if prime { 14 } else { 5 },
        RubiksAction::Middle { prime } => if prime { 15 } else { 6 },
        RubiksAction::Equatorial { prime } => if prime { 16 } else { 7 },
        RubiksAction::Standing { prime } => if prime { 17 } else { 8 },
        _ => 18,
    }
}

/// A move the solver tries.
pub open spec fn is_basic_move(a: RubiksAction) -> bool {
    move_rank(a) < 18
}

/// The move the solver tries in place `j` (`0 <= j < 18`).
pub open spec fn basic_move(j: int) -> RubiksAction {
    let prime = j >= 9;
    let k = if prime { j - 9 } else { j };
    if k == 0 {
        RubiksAction::Left { prime, wide: false }
    } else if k == 1 {
        RubiksAction::Right { prime, wide: false }
    } else if k == 2 {
        RubiksAction::Down { prime, wide: false }
    } else if k == 3 {
        RubiksAction::Up { prime, wide: false }
    } else if k == 4 {
        RubiksAction::Back { prime, wide: false }
    } else if k == 5 {
        RubiksAction::Front { prime, wide: false }
    } else if k == 6 {
        RubiksAction::Middle { prime }
    } else if k == 7 {
        RubiksAction::Equatorial { prime }
    } else {
        RubiksAction::Standing { prime }
    }
}

/// Each move the solver tries has exactly one place in its order.
pub proof fn lemma_basic_move_rank(a: RubiksAction, j: int)
    ensures
        0 <= j < 18 ==> move_rank(basic_move(j)) == j,
        is_basic_move(a) ==> basic_move(move_rank(a)) == a,
        0 <= move_rank(a) <= 18,
{
}

/// `v` comes no later than `w` in the order the solver tries move lists of one
/// length: compared move by move, at the first difference `v`'s move ranks lower.
pub open spec fn lex_le(v: Seq<RubiksAction>, w: Seq<RubiksAction>) -> bool
    decreases v.len(),
{
    if v.len() == 0 || w.len() == 0 {
        true
    } else if v[0] == w[0] {
        lex_le(v.drop_first(), w.drop_first())
    } else {
        move_rank(v[0]) < move_rank(w[0])
    }
}

/// A list of moves the solver can find for the cube `g`: moves it tries,
/// which leave the cube solved.
pub open spec fn is_solution(g: Grid, v: Seq<RubiksAction>) -> bool {
    &&& forall|i: int| 0 <= i < v.len() ==> #[trigger] is_basic_move(v[i])
    &&& solved(apply_seq(g, v))
}

/// The solution the solver returns: among the shortest, the first in its order.
pub open spec fn is_first_solution(g: Grid, v: Seq<RubiksAction>) -> bool {
    &&& is_solution(g, v)
    &&& forall|w: Seq<RubiksAction>| #[trigger]
        is_solution(g, w) ==> v.len() <= w.len() && (w.len() == v.len() ==> lex_le(v, w))
}

/// A non-empty list of moves is a solution when its first move is tried and
/// the rest solves the cube that move leaves.
proof fn lemma_solution_cons(g: Grid, w: Seq<RubiksAction>)
    requires
        w.len() > 0,
    ensures
        is_solution(g, w) <==> (is_basic_move(w[0]) && is_solution(apply_action(g, w[0]), w.drop_first())),
{
    assert(apply_seq(g, w) == apply_seq(apply_action(g, w[0]), w.drop_first()));
    if is_basic_move(w[0]) && is_solution(apply_action(g, w[0]), w.drop_first()) {
        assert forall|i: int| 0 <= i < w.len() implies #[trigger] is_basic_move(w[i]) by {
            if i > 0 {
                assert(w[i] == w.drop_first()[i - 1]);
            }
        }
    }
    if is_solution(g, w) {
        assert(is_basic_move(w[0]));
        assert forall|i: int| 0 <= i < w.drop_first().len() implies #[trigger] is_basic_move(w.drop_first()[i]) by {
            assert(w.drop_first()[i] == w[i + 1]);
        }
    }
}

/// The only list of no moves solves exactly the solved cubes.
proof fn lemma_empty_solution(g: Grid, w: Seq<RubiksAction>)
    requires
        w.len() == 0,
    ensures
        is_solution(g, w) <==> solved(g),
{
}

/// The list `v` comes no later than `w` when its first move ranks no higher
/// and, on the same first move, its rest comes no later.
proof fn lemma_lex_first(v: Seq<RubiksAction>, w: Seq<RubiksAction>, j: int)
    requires
        v.len() == w.len(),
        v.len() >= 1,
        0 <= j < 18,
        v[0] == basic_move(j),
        is_basic_move(w[0]),
        move_rank(w[0]) >= j,
        w[0] == v[0] ==> lex_le(v.drop_first(), w.drop_first()),
    ensures
        lex_le(v, w),
{
    lemma_basic_move_rank(w[0], j);
}

/// The moves of `v` in reverse order.
fn reversed(v: Vec<RubiksAction>) -> (r: Vec<RubiksAction>)
    ensures
        r@ == v@.reverse(),
{
    let mut r: Vec<RubiksAction> = Vec::new();
    let mut k = v.len();
    while k > 0
        invariant
            k <= v.len(),
            r@.len() == v.len() - k,
            forall|i: int| 0 <= i < r@.len() ==> r@[i] == v@[v.len() - 1 - i],
        decreases k,
    {
        k -= 1;
        r.push(v[k]);
    }
    assert(r@ =~= v@.reverse());
    r
}

/// Whether a search has been asked to stop: the flag, when there is one, is
/// read as another thread left it.
fn cancel_requested(cancel_flag_opt: &Option<Arc<AtomicBool>>) -> (r: bool)
    ensures
        cancel_flag_opt is None ==> !r,
{
    match cancel_flag_opt {
        Some(cancel_flag) => cancel_flag.load(std::sync::atomic::Ordering::SeqCst),
        None => false,
    }
}

} // verus!
