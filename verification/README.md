# rubiks

A verified model of a 3x3x3 Rubik's cube and of the bookkeeping of an
interactive cube simulation.

- `src/side.rs`: the orientation of one small cube (`Sides`) and its quarter turns.
- `src/action.rs`: moves in cube notation (`RubiksAction`), their inverse,
  their written form and the layer turns (`SliceTurn`) they are made of.
- `src/grid.rs`: the mathematical model of the whole cube (`Grid`) and the
  laws of layer turns and moves.
- `src/solver.rs`: `Solver`, the 27 orientations, with moves and an
  iterative-deepening search for the first shortest solution.
- `src/layers.rs`: moving the contents of any 3x3x3 array as a layer turn
  moves the small cubes; the drawn cube uses it to place its meshes.
- `src/history.rs`, `src/animation.rs`, `src/controls.rs`, `src/shuffle.rs`:
  the move history with undo and redo, the queue of moves being shown, the
  key commands, and random shuffles.
- `app/`: the window, rendering and animation (three-d), threads and keyboard.
