//! A model of a 3x3x3 Rubik's cube: the orientation of each small cube, the
//! moves of the standard notation, a depth-limited solver, and the
//! bookkeeping (move history, animation queue, key commands, shuffles) of an
//! interactive simulation.
pub mod side;
pub mod action;
pub mod cube_colors;
pub mod grid;
pub mod solver;
pub mod layers;
pub mod history;
pub mod animation;
pub mod controls;
pub mod shuffle;
