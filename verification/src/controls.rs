use vstd::prelude::*;

use crate::action::RubiksAction;
use crate::grid::solved;
use crate::solver::Solver;

verus! {

/// How many random layer turns a shuffle makes.
pub const SHUFFLE_MOVES: usize = 20;

/// How many moves deep the solver looks.
pub const SOLVER_MAX_DEPTH: usize = 6;

/// The keys the simulation reacts to; every other key is `Other`.
#[derive(Clone, Copy, PartialEq, Eq, Structural, Debug)]
pub enum KeyInput {
    L,
    R,
    D,
    U,
    B,
    F,
    M,
    E,
    S,
    X,
    Y,
    Z,
    Tab,
    ArrowLeft,
    ArrowRight,
    F1,
    F2,
    Other,
}

/// What a key press asks the simulation to do.
#[derive(Clone, Copy, PartialEq, Eq, Structural, Debug)]
pub enum Command {
    /// Enter a new move.
    Move(RubiksAction),
    /// Show or hide the axes.
    ToggleAxes,
    /// Take back the last move in effect, or all of them.
    HistoryBack { all: bool },
    /// Make again the first move taken back, or all of them.
    HistoryForward { all: bool },
    /// Start again from a solved cube with no history.
    Reset,
    /// Turn `SHUFFLE_MOVES` random layers.
    Shuffle,
}

/// The command of a key pressed with the given modifiers: Shift makes a move
/// prime, Alt makes a face move wide, Ctrl makes the arrows go all the way.
pub open spec fn key_command(key: KeyInput, shift: bool, alt: bool, ctrl: bool) -> Option<Command> {
    match key {
        KeyInput::L => Some(Command::Move(RubiksAction::Left { prime: shift, wide: alt })),
        KeyInput::R => Some(Command::Move(RubiksAction::Right { prime: shift, wide: alt })),
        KeyInput::D => Some(Command::Move(RubiksAction::Down { prime: shift, wide: alt })),
        KeyInput::U => Some(Command::Move(RubiksAction::Up { prime: shift, wide: alt })),
        KeyInput::B => Some(Command::Move(RubiksAction::Back { prime: shift, wide: alt })),
        KeyInput::F => Some(Command::Move(RubiksAction::Front { prime: shift, wide: alt })),
        KeyInput::M => Some(Command::Move(RubiksAction::Middle { prime: shift })),
        KeyInput::E => Some(Command::Move(RubiksAction::Equatorial { prime: shift })),
        KeyInput::S => Some(Command::Move(RubiksAction::Standing { prime: shift })),
        KeyInput::X => Some(Command::Move(RubiksAction::RotateCubeX { prime: shift })),
        KeyInput::Y => Some(Command::Move(RubiksAction::RotateCubeY { prime: shift })),
        KeyInput::Z => Some(Command::Move(RubiksAction::RotateCubeZ { prime: shift })),
        KeyInput::Tab => Some(Command::ToggleAxes),
        KeyInput::ArrowLeft => Some(Command::HistoryBack { all: ctrl }),
        KeyInput::ArrowRight => Some(Command::HistoryForward { all: ctrl }),
        KeyInput::F1 => Some(Command::Reset),
        KeyInput::F2 => Some(Command::Shuffle),
        KeyInput::Other => None,
    }
}

/// The command of a key press.
pub fn command_for_key(key: KeyInput, shift: bool, alt: bool, ctrl: bool) -> (r: Option<Command>)
    ensures
        r == key_command(key, shift, alt, ctrl),
{
    match key {
        KeyInput::L => Some(Command::Move(RubiksAction::Left { prime: shift, wide: alt })),
        KeyInput::R => Some(Command::Move(RubiksAction::Right { prime: shift, wide: alt })),
        KeyInput::D => Some(Command::Move(RubiksAction::Down { prime: shift, wide: alt })),
        KeyInput::U => Some(Command::Move(RubiksAction::Up { prime: shift, wide: alt })),
        KeyInput::B => Some(Command::Move(RubiksAction::Back { prime: shift, wide: alt })),
        KeyInput::F => Some(Command::Move(RubiksAction::Front { prime: shift, wide: alt })),
        KeyInput::M => Some(Command::Move(RubiksAction::Middle { prime: shift })),
        KeyInput::E => Some(Command::Move(RubiksAction::Equatorial { prime: shift })),
        KeyInput::S => Some(Command::Move(RubiksAction::Standing { prime: shift })),
        KeyInput::X => Some(Command::Move(RubiksAction::RotateCubeX { prime: shift })),
        KeyInput::Y => Some(Command::Move(RubiksAction::RotateCubeY { prime: shift })),
        KeyInput::Z => Some(Command::Move(RubiksAction::RotateCubeZ { prime: shift })),
        KeyInput::Tab => Some(Command::ToggleAxes),
        KeyInput::ArrowLeft => Some(Command::HistoryBack { all: ctrl }),
        KeyInput::ArrowRight => Some(Command::HistoryForward { all: ctrl }),
        KeyInput::F1 => Some(Command::Reset),
        KeyInput::F2 => Some(Command::Shuffle),
        KeyInput::Other => None,
    }
}

/// What the solver line shows after the cube changed.
#[derive(Clone, Copy, PartialEq, Eq, Structural, Debug)]
pub enum SolverStatus {
    /// The cube is solved.
    Solved,
    /// The cube is not solved and no search is wanted: the line is blank.
    Idle,
    /// A search for a solution starts.
    Solving,
}

/// The solver line's state for a cube, when a search is wanted or not.
pub fn solver_status(solver: &Solver, try_solve: bool) -> (r: SolverStatus)
    ensures
        r == (if solved(solver.grid()) {
            SolverStatus::Solved
        } else if !try_solve {
            SolverStatus::Idle
        } else {
            SolverStatus::Solving
        }),
{
    if solver.is_solved() {
        SolverStatus::Solved
    } else if !try_solve {
        SolverStatus::Idle
    } else {
        SolverStatus::Solving
    }
}

/// A move of one of the six faces, which alone can be wide.
pub open spec fn is_face_move(a: RubiksAction) -> bool {
    ||| a is Left
    ||| a is Right
    ||| a is Down
    ||| a is Up
    ||| a is Back
    ||| a is Front
}

/// For a key that enters a move: Shift sets exactly whether the move is prime
/// (Shift gives the inverse move), Alt sets exactly whether a face move is
/// wide, Ctrl changes nothing, and different keys give moves of different
/// letters.
pub proof fn law_key_modifiers(k: KeyInput, shift: bool, alt: bool, ctrl: bool)
    ensures
        key_command(k, shift, alt, ctrl) matches Some(Command::Move(a)) ==> {
            &&& a.is_prime() == shift
            &&& a.is_wide() == (alt && is_face_move(a))
            &&& key_command(k, !shift, alt, ctrl) == Some(Command::Move(a.inverted()))
            &&& key_command(k, shift, alt, !ctrl) == Some(Command::Move(a))
        },
        key_command(k, shift, alt, ctrl) matches Some(Command::Move(a)) ==> forall|
            k2: KeyInput,
            shift2: bool,
            alt2: bool,
            ctrl2: bool,
        |
            k2 != k ==> (#[trigger] key_command(k2, shift2, alt2, ctrl2) matches Some(Command::Move(b))
                ==> a.letter() != b.letter()),
{
}

} // verus!
