use std::sync::Arc;
use std::sync::atomic::AtomicBool;

use rubiks::action::{Axis, RubiksAction, SliceTurn};
use rubiks::cube_colors::{CubeColor, CubeColors};
use rubiks::layers::{layer_position, permute_layer};
use rubiks::side::{Side, Sides};
use rubiks::solver::Solver;

fn solved_solver() -> Solver {
    Solver { cubes: [[[Sides::default(); 3]; 3]; 3] }
}

fn all_actions() -> Vec<RubiksAction> {
    let mut v = Vec::new();
    for prime in [false, true] {
        for wide in [false, true] {
            v.push(RubiksAction::Left { prime, wide });
            v.push(RubiksAction::Right { prime, wide });
            v.push(RubiksAction::Down { prime, wide });
            v.push(RubiksAction::Up { prime, wide });
            v.push(RubiksAction::Back { prime, wide });
            v.push(RubiksAction::Front { prime, wide });
        }
        v.push(RubiksAction::Middle { prime });
        v.push(RubiksAction::Equatorial { prime });
        v.push(RubiksAction::Standing { prime });
        v.push(RubiksAction::RotateCubeX { prime });
        v.push(RubiksAction::RotateCubeY { prime });
        v.push(RubiksAction::RotateCubeZ { prime });
    }
    v
}

#[test]
fn default_sides_are_home() {
    let s = Sides::default();
    assert_eq!(s.left, Side::Left);
    assert_eq!(s.right, Side::Right);
    assert_eq!(s.down, Side::Down);
    assert_eq!(s.up, Side::Up);
    assert_eq!(s.back, Side::Back);
    assert_eq!(s.front, Side::Front);
}

#[test]
fn rotated_x_clockwise_cycles_faces() {
    let s = Sides::default().rotated_x(true);
    assert_eq!(s.down, Side::Front);
    assert_eq!(s.up, Side::Back);
    assert_eq!(s.back, Side::Down);
    assert_eq!(s.front, Side::Up);
    assert_eq!(s.left, Side::Left);
    assert_eq!(s.right, Side::Right);
}

#[test]
fn rotated_y_and_z_values() {
    let y = Sides::default().rotated_y(false);
    assert_eq!(y.left, Side::Back);
    assert_eq!(y.right, Side::Front);
    assert_eq!(y.back, Side::Right);
    assert_eq!(y.front, Side::Left);
    assert_eq!(y.up, Side::Up);
    let z = Sides::default().rotated_z(true);
    assert_eq!(z.left, Side::Up);
    assert_eq!(z.right, Side::Down);
    assert_eq!(z.down, Side::Left);
    assert_eq!(z.up, Side::Right);
    assert_eq!(z.front, Side::Front);
}

#[test]
fn turn_and_turn_back_restore_sides() {
    let s = Sides::default().rotated_y(true).rotated_z(false);
    for cw in [false, true] {
        assert_eq!(s.rotated_x(cw).rotated_x(!cw), s);
        assert_eq!(s.rotated_y(cw).rotated_y(!cw), s);
        assert_eq!(s.rotated_z(cw).rotated_z(!cw), s);
        assert_eq!(s.rotated_x(cw).rotated_x(cw).rotated_x(cw).rotated_x(cw), s);
    }
}

#[test]
fn inverse_flips_prime_only() {
    assert_eq!(
        RubiksAction::Left { prime: false, wide: true }.inverse(),
        RubiksAction::Left { prime: true, wide: true }
    );
    assert_eq!(RubiksAction::RotateCubeZ { prime: true }.inverse(), RubiksAction::RotateCubeZ { prime: false });
    for a in all_actions() {
        assert_eq!(a.inverse().inverse(), a);
        assert_ne!(a.inverse(), a);
    }
}

#[test]
fn notation_strings() {
    assert_eq!(RubiksAction::Left { prime: false, wide: false }.to_string_notation(false), "L");
    assert_eq!(RubiksAction::Right { prime: true, wide: false }.to_string_notation(true), "R'");
    assert_eq!(RubiksAction::Up { prime: false, wide: true }.to_string_notation(true), "Uw");
    assert_eq!(RubiksAction::Up { prime: true, wide: true }.to_string_notation(true), "Uw'");
    assert_eq!(RubiksAction::Front { prime: false, wide: true }.to_string_notation(false), "f");
    assert_eq!(RubiksAction::Back { prime: true, wide: true }.to_string_notation(false), "b'");
    assert_eq!(RubiksAction::Down { prime: true, wide: false }.to_string_notation(false), "D'");
    assert_eq!(RubiksAction::Middle { prime: true }.to_string_notation(false), "M'");
    assert_eq!(RubiksAction::Equatorial { prime: false }.to_string_notation(true), "E");
    assert_eq!(RubiksAction::Standing { prime: true }.to_string_notation(true), "S'");
    assert_eq!(RubiksAction::RotateCubeX { prime: false }.to_string_notation(false), "x");
    assert_eq!(RubiksAction::RotateCubeY { prime: true }.to_string_notation(false), "y'");
    assert_eq!(RubiksAction::RotateCubeZ { prime: false }.to_string_notation(true), "z");
}

#[test]
fn slice_turns_of_moves() {
    assert_eq!(
        RubiksAction::Right { prime: false, wide: true }.slice_turns(),
        vec![
            SliceTurn { axis: Axis::X, index: 2, cw: true },
            SliceTurn { axis: Axis::X, index: 1, cw: true },
        ]
    );
    assert_eq!(
        RubiksAction::Down { prime: true, wide: false }.slice_turns(),
        vec![SliceTurn { axis: Axis::Y, index: 0, cw: true }]
    );
    assert_eq!(
        RubiksAction::RotateCubeZ { prime: false }.slice_turns(),
        vec![
            SliceTurn { axis: Axis::Z, index: 0, cw: true },
            SliceTurn { axis: Axis::Z, index: 1, cw: true },
            SliceTurn { axis: Axis::Z, index: 2, cw: true },
        ]
    );
    assert_eq!(
        RubiksAction::Standing { prime: true }.slice_turns(),
        vec![SliceTurn { axis: Axis::Z, index: 1, cw: true }]
    );
}

#[test]
fn rotations_are_a_cycle_and_its_reverse() {
    let cw = Solver::rotations(true);
    let ccw = Solver::rotations(false);
    assert_eq!(cw[0], ((0, 2), (0, 0)));
    assert_eq!(cw[5], ((2, 1), (1, 2)));
    for k in 0..6 {
        assert_eq!(cw[k], ccw[5 - k]);
    }
}

#[test]
fn solved_cube_is_solved() {
    assert!(solved_solver().is_solved());
}

#[test]
fn a_face_turn_unsolves_and_its_inverse_restores() {
    for a in all_actions() {
        let mut s = solved_solver();
        s.apply(a);
        let whole = matches!(
            a,
            RubiksAction::RotateCubeX { .. } | RubiksAction::RotateCubeY { .. } | RubiksAction::RotateCubeZ { .. }
        );
        assert_eq!(s.is_solved(), whole);
        s.apply(a.inverse());
        assert_eq!(s.cubes, solved_solver().cubes);
    }
}

#[test]
fn left_turn_moves_the_left_layer() {
    let mut s = solved_solver();
    s.apply(RubiksAction::Left { prime: false, wide: false });
    // the clockwise quarter turn about x brings (0, 2 - z, y) to (0, y, z)
    assert_eq!(s.cubes[0][0][0], Sides::default().rotated_x(false));
    assert_eq!(s.cubes[1][0][0], Sides::default());
    assert_eq!(s.cubes[2][2][2], Sides::default());
}

#[test]
fn four_quarter_turns_restore() {
    for a in all_actions() {
        let mut s = solved_solver();
        s.apply(RubiksAction::Right { prime: false, wide: false });
        s.apply(RubiksAction::Up { prime: true, wide: false });
        let before = s.cubes;
        for _ in 0..4 {
            s.apply(a);
        }
        assert_eq!(s.cubes, before);
    }
}

#[test]
fn try_solve_depth_zero_gives_nothing() {
    assert_eq!(solved_solver().try_solve(0, &None), None);
}

#[test]
fn try_solve_solved_gives_empty() {
    assert_eq!(solved_solver().try_solve(3, &None), Some(Vec::new()));
}

#[test]
fn try_solve_one_move() {
    let mut s = solved_solver();
    s.apply(RubiksAction::Front { prime: false, wide: false });
    assert_eq!(s.try_solve(1, &None), Some(vec![RubiksAction::Front { prime: true, wide: false }]));
    assert_eq!(s.try_solve(4, &None), Some(vec![RubiksAction::Front { prime: true, wide: false }]));
}

#[test]
fn try_solve_two_moves_in_order() {
    let mut s = solved_solver();
    s.apply(RubiksAction::Right { prime: false, wide: false });
    s.apply(RubiksAction::Up { prime: false, wide: false });
    assert_eq!(s.try_solve(1, &None), None);
    assert_eq!(
        s.try_solve(3, &None),
        Some(vec![RubiksAction::Up { prime: true, wide: false }, RubiksAction::Right { prime: true, wide: false }])
    );
}

#[test]
fn try_solve_first_in_order_among_shortest() {
    // a middle-layer turn undone by its own inverse: M' comes first in the order
    let mut s = solved_solver();
    s.apply(RubiksAction::Middle { prime: false });
    assert_eq!(s.try_solve(2, &None), Some(vec![RubiksAction::Middle { prime: true }]));
    // a double turn: L L and L' L' both solve it, and L comes first
    let mut d = solved_solver();
    d.apply(RubiksAction::Left { prime: false, wide: false });
    d.apply(RubiksAction::Left { prime: false, wide: false });
    assert_eq!(
        d.try_solve(2, &None),
        Some(vec![RubiksAction::Left { prime: false, wide: false }, RubiksAction::Left { prime: false, wide: false }])
    );
}

#[test]
fn try_solve_solution_solves() {
    let mut s = solved_solver();
    s.apply(RubiksAction::Back { prime: true, wide: false });
    s.apply(RubiksAction::Down { prime: false, wide: false });
    s.apply(RubiksAction::Standing { prime: false });
    let sol = s.try_solve(3, &None).unwrap();
    assert!(sol.len() <= 3);
    let mut t = s;
    for a in sol {
        t.apply(a);
    }
    assert!(t.is_solved());
}

#[test]
fn try_solve_whole_cube_rotation_is_solved() {
    let mut s = solved_solver();
    s.apply(RubiksAction::RotateCubeY { prime: false });
    assert_eq!(s.try_solve(2, &None), Some(Vec::new()));
}

#[test]
fn try_solve_cancelled() {
    let mut s = solved_solver();
    s.apply(RubiksAction::Right { prime: false, wide: false });
    s.apply(RubiksAction::Up { prime: false, wide: false });
    let flag = Some(Arc::new(AtomicBool::new(true)));
    assert_eq!(s.try_solve(3, &flag), None);
    let unset = Some(Arc::new(AtomicBool::new(false)));
    assert_eq!(s.try_solve(2, &unset).map(|v| v.len()), Some(2));
}

#[test]
fn cube_color_of_side() {
    assert_eq!(CubeColor::from(Side::Left), CubeColor::Orange);
    assert_eq!(CubeColor::from(Side::Right), CubeColor::Red);
    assert_eq!(CubeColor::from(Side::Down), CubeColor::Yellow);
    assert_eq!(CubeColor::from(Side::Up), CubeColor::White);
    assert_eq!(CubeColor::from(Side::Back), CubeColor::Blue);
    assert_eq!(CubeColor::from(Side::Front), CubeColor::Green);
}

#[test]
fn cube_color_rgb() {
    assert_eq!(CubeColor::to_rgb(None), (64, 64, 64));
    assert_eq!(CubeColor::to_rgb(Some(CubeColor::Orange)), (255, 165, 0));
    assert_eq!(CubeColor::to_rgb(Some(CubeColor::Green)), (0, 255, 0));
    assert_eq!(CubeColor::to_rgb(Some(CubeColor::White)), (255, 255, 255));
}

#[test]
fn cube_colors_at_positions() {
    let corner = CubeColors::at_position(0, 0, 2);
    assert_eq!(corner.left, Some(CubeColor::Orange));
    assert_eq!(corner.right, None);
    assert_eq!(corner.down, Some(CubeColor::Yellow));
    assert_eq!(corner.up, None);
    assert_eq!(corner.back, None);
    assert_eq!(corner.front, Some(CubeColor::Green));
    let center = CubeColors::at_position(1, 1, 1);
    assert_eq!(
        center,
        CubeColors { left: None, right: None, down: None, up: None, back: None, front: None }
    );
}

#[test]
fn try_solve_one_move_despite_set_flag() {
    let mut s = solved_solver();
    s.apply(RubiksAction::Equatorial { prime: true });
    let flag = Some(Arc::new(AtomicBool::new(true)));
    assert_eq!(s.try_solve(3, &flag), Some(vec![RubiksAction::Equatorial { prime: false }]));
}

#[test]
fn permute_layer_moves_a_numbering() {
    let mut cells: [[[usize; 3]; 3]; 3] = std::array::from_fn(|x| std::array::from_fn(|y| std::array::from_fn(|z| x * 9 + y * 3 + z)));
    let t = SliceTurn { axis: Axis::X, index: 0, cw: true };
    permute_layer(&mut cells, t);
    // the clockwise turn about x brings (0, 2 - z, y) to (0, y, z)
    for y in 0..3 {
        for z in 0..3 {
            assert_eq!(cells[0][y][z], (2 - z) * 3 + y);
            assert_eq!(cells[1][y][z], 9 + y * 3 + z);
        }
    }
    for _ in 0..3 {
        permute_layer(&mut cells, t);
    }
    assert_eq!(cells[0][1][2], 5);
    assert_eq!(layer_position(Axis::Y, 2, 0, 1), (0, 2, 1));
    assert_eq!(layer_position(Axis::Z, 1, 2, 0), (2, 0, 1));
}

#[test]
fn permute_layer_agrees_with_solver_turns() {
    // numbering the small cubes, moving the numbers, and reading each cube's
    // orientation through them gives what the solver gives
    let mut s = solved_solver();
    s.apply(RubiksAction::Right { prime: false, wide: false });
    s.apply(RubiksAction::Up { prime: true, wide: false });
    let mut sides: Vec<Sides> = Vec::new();
    for x in 0..3 {
        for y in 0..3 {
            for z in 0..3 {
                sides.push(s.cubes[x][y][z]);
            }
        }
    }
    let mut placement: [[[usize; 3]; 3]; 3] =
        std::array::from_fn(|x| std::array::from_fn(|y| std::array::from_fn(|z| x * 9 + y * 3 + z)));
    let a = RubiksAction::Front { prime: true, wide: true };
    for t in a.slice_turns() {
        for p in 0..3 {
            for q in 0..3 {
                let (x, y, z) = layer_position(t.axis, t.index, p, q);
                let n = placement[x][y][z];
                sides[n] = match t.axis {
                    Axis::X => sides[n].rotated_x(t.cw),
                    Axis::Y => sides[n].rotated_y(t.cw),
                    Axis::Z => sides[n].rotated_z(t.cw),
                };
            }
        }
        permute_layer(&mut placement, t);
    }
    s.apply(a);
    for x in 0..3 {
        for y in 0..3 {
            for z in 0..3 {
                assert_eq!(sides[placement[x][y][z]], s.cubes[x][y][z]);
            }
        }
    }
}
