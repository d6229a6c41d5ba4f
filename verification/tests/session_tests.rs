use rubiks::action::{Axis, RubiksAction};
use rubiks::animation::AnimationQueue;
use rubiks::controls::{Command, KeyInput, SolverStatus, command_for_key, solver_status};
use rubiks::history::{History, notation_text};
use rubiks::shuffle::{shuffle_turns, slice_turn_for_choice};
use rubiks::side::Sides;
use rubiks::solver::Solver;

fn l() -> RubiksAction {
    RubiksAction::Left { prime: false, wide: false }
}

fn u_prime() -> RubiksAction {
    RubiksAction::Up { prime: true, wide: false }
}

#[test]
fn history_back_and_forward() {
    let mut h = History::new();
    assert_eq!(h.try_move_back(), None);
    h.add_new_action(l());
    h.add_new_action(u_prime());
    assert_eq!(h.active(), 2);
    assert_eq!(h.try_move_forward(), None);
    assert_eq!(h.try_move_back(), Some(RubiksAction::Up { prime: false, wide: false }));
    assert_eq!(h.try_move_back(), Some(RubiksAction::Left { prime: true, wide: false }));
    assert_eq!(h.try_move_back(), None);
    assert_eq!(h.active(), 0);
    assert_eq!(h.try_move_forward(), Some(l()));
    assert_eq!(h.active(), 1);
}

#[test]
fn history_new_action_drops_taken_back() {
    let mut h = History::new();
    h.add_new_action(l());
    h.add_new_action(u_prime());
    h.try_move_back();
    h.add_new_action(RubiksAction::Middle { prime: false });
    assert_eq!(h.active(), 2);
    assert_eq!(h.texts(false), ("L M ".to_string(), "".to_string()));
    assert_eq!(h.try_move_forward(), None);
}

#[test]
fn history_texts_split_at_active() {
    let mut h = History::new();
    h.add_new_action(l());
    h.add_new_action(RubiksAction::Right { prime: true, wide: true });
    h.add_new_action(u_prime());
    h.try_move_back();
    assert_eq!(h.texts(false), ("L r' ".to_string(), "U' ".to_string()));
    assert_eq!(h.texts(true), ("L Rw' ".to_string(), "U' ".to_string()));
}

#[test]
fn history_text_keeps_last_forty_characters() {
    let mut h = History::new();
    for _ in 0..25 {
        h.add_new_action(RubiksAction::Left { prime: true, wide: false });
    }
    let (left, right) = h.texts(false);
    assert_eq!(left.len(), 40);
    assert_eq!(left, "L' ".repeat(25)[35..].to_string());
    assert_eq!(right, "");
}

#[test]
fn history_clear() {
    let mut h = History::new();
    h.add_new_action(l());
    h.clear();
    assert_eq!(h.active(), 0);
    assert_eq!(h.try_move_forward(), None);
    assert_eq!(h.texts(false), (String::new(), String::new()));
}

#[test]
fn history_replays_on_the_cube() {
    let mut cube = Solver { cubes: [[[Sides::default(); 3]; 3]; 3] };
    let mut h = History::new();
    for a in [l(), u_prime(), RubiksAction::Standing { prime: false }] {
        h.add_new_action(a);
        cube.apply(a);
    }
    while let Some(undo) = h.try_move_back() {
        cube.apply(undo);
    }
    assert!(cube.is_solved());
    assert_eq!(cube.cubes, Solver { cubes: [[[Sides::default(); 3]; 3]; 3] }.cubes);
}

#[test]
fn notation_text_of_moves() {
    let v = vec![l(), u_prime(), RubiksAction::RotateCubeX { prime: false }];
    assert_eq!(notation_text(&v, 0, 3, false), "L U' x ");
    assert_eq!(notation_text(&v, 1, 2, false), "U' ");
    assert_eq!(notation_text(&v, 2, 2, false), "");
}

#[test]
fn animation_queue_order() {
    let mut q = AnimationQueue::new();
    assert!(q.is_idle());
    q.push(l());
    assert!(!q.is_idle());
    q.push(u_prime());
    assert_eq!(q.finish_current(), Some(u_prime()));
    assert_eq!(q.finish_current(), None);
    assert!(q.is_idle());
}

#[test]
fn key_commands() {
    assert_eq!(
        command_for_key(KeyInput::L, true, false, false),
        Some(Command::Move(RubiksAction::Left { prime: true, wide: false }))
    );
    assert_eq!(
        command_for_key(KeyInput::F, false, true, true),
        Some(Command::Move(RubiksAction::Front { prime: false, wide: true }))
    );
    assert_eq!(
        command_for_key(KeyInput::M, true, true, false),
        Some(Command::Move(RubiksAction::Middle { prime: true }))
    );
    assert_eq!(
        command_for_key(KeyInput::Z, false, false, false),
        Some(Command::Move(RubiksAction::RotateCubeZ { prime: false }))
    );
    assert_eq!(command_for_key(KeyInput::Tab, false, false, false), Some(Command::ToggleAxes));
    assert_eq!(command_for_key(KeyInput::ArrowLeft, false, false, true), Some(Command::HistoryBack { all: true }));
    assert_eq!(
        command_for_key(KeyInput::ArrowRight, false, false, false),
        Some(Command::HistoryForward { all: false })
    );
    assert_eq!(command_for_key(KeyInput::F1, false, false, false), Some(Command::Reset));
    assert_eq!(command_for_key(KeyInput::F2, false, false, false), Some(Command::Shuffle));
    assert_eq!(command_for_key(KeyInput::Other, true, true, true), None);
}

#[test]
fn solver_status_decisions() {
    let mut s = Solver { cubes: [[[Sides::default(); 3]; 3]; 3] };
    assert_eq!(solver_status(&s, false), SolverStatus::Solved);
    s.apply(l());
    assert_eq!(solver_status(&s, false), SolverStatus::Idle);
    assert_eq!(solver_status(&s, true), SolverStatus::Solving);
}

#[test]
fn shuffle_choices() {
    let t = slice_turn_for_choice(0, true);
    assert_eq!((t.axis, t.index, t.cw), (Axis::X, 0, true));
    let t = slice_turn_for_choice(4, false);
    assert_eq!((t.axis, t.index, t.cw), (Axis::Y, 1, false));
    let t = slice_turn_for_choice(8, true);
    assert_eq!((t.axis, t.index, t.cw), (Axis::Z, 2, true));
}

#[test]
fn shuffle_makes_the_asked_number_of_turns() {
    let turns = shuffle_turns(20);
    assert_eq!(turns.len(), 20);
    assert!(turns.iter().all(|t| t.index < 3));
    assert_eq!(shuffle_turns(0).len(), 0);
}


#[test]
fn shuffle_draws_different_layers() {
    // with fair draws, two hundred turns all on one layer have vanishing odds
    let turns = shuffle_turns(200);
    let first = turns[0];
    assert!(turns.iter().any(|t| t.axis != first.axis || t.index != first.index));
    assert!(turns.iter().any(|t| t.cw) && turns.iter().any(|t| !t.cw));
}

#[test]
fn history_all_the_way_back_and_forward() {
    let mut h = History::new();
    h.add_new_action(l());
    h.add_new_action(u_prime());
    h.add_new_action(RubiksAction::Middle { prime: false });
    h.try_move_back();
    assert_eq!(
        h.try_move_all_back(),
        vec![RubiksAction::Up { prime: false, wide: false }, RubiksAction::Left { prime: true, wide: false }]
    );
    assert_eq!(h.active(), 0);
    assert_eq!(h.try_move_all_back(), Vec::new());
    assert_eq!(h.try_move_all_forward(), vec![l(), u_prime(), RubiksAction::Middle { prime: false }]);
    assert_eq!(h.active(), 3);
    assert_eq!(h.try_move_all_forward(), Vec::new());
}
