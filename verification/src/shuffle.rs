use vstd::prelude::*;

use rand::RngExt;
use rand::rngs::ThreadRng;

use crate::action::{Axis, SliceTurn};

verus! {

#[verifier::external_type_specification]
#[verifier::external_body]
pub struct ExThreadRng(ThreadRng);

/// `rand::rng()`: the random generator of the calling thread, seeded by the
/// system. Nothing is stated of it.
#[verifier::external_body]
fn thread_rng() -> ThreadRng {
    rand::rng()
}

/// `RngExt::random_range` over `0..bound`: a value drawn uniformly from the
/// range, so below `bound` (the range is not empty, so it does not panic).
/// Which value comes is chance.
#[verifier::external_body]
fn random_below(rng: &mut ThreadRng, bound: usize) -> (r: usize)
    requires
        bound > 0,
    ensures
        r < bound,
{
    rng.random_range(0..bound)
}

/// `RngExt::random_ratio(numerator, denominator)`: `true` with probability
/// `numerator / denominator` (it panics only on a zero denominator or a
/// numerator above it). Which value comes is chance.
#[verifier::external_body]
fn random_ratio(rng: &mut ThreadRng, numerator: u32, denominator: u32) -> bool
    requires
        0 < denominator,
        numerator <= denominator,
{
    rng.random_ratio(numerator, denominator)
}

/// The layer turn numbered `choice`: layers 0, 1, 2 about x, then about y,
/// then about z.
pub open spec fn choice_turn(choice: int, cw: bool) -> SliceTurn {
    SliceTurn {
        axis: if choice < 3 {
            Axis::X
        } else if choice < 6 {
            Axis::Y
        } else {
            Axis::Z
        },
        index: (choice % 3) as usize,
        cw,
    }
}

/// The layer turn numbered `choice` (below 9), in direction `cw`.
pub fn slice_turn_for_choice(choice: usize, cw: bool) -> (r: SliceTurn)
    requires
        choice < 9,
    ensures
        r == choice_turn(choice as int, cw),
{
    match choice {
        0 => SliceTurn { axis: Axis::X, index: 0, cw },
        1 => SliceTurn { axis: Axis::X, index: 1, cw },
        2 => SliceTurn { axis: Axis::X, index: 2, cw },
        3 => SliceTurn { axis: Axis::Y, index: 0, cw },
        4 => SliceTurn { axis: Axis::Y, index: 1, cw },
        5 => SliceTurn { axis: Axis::Y, index: 2, cw },
        6 => SliceTurn { axis: Axis::Z, index: 0, cw },
        7 => SliceTurn { axis: Axis::Z, index: 1, cw },
        _ => SliceTurn { axis: Axis::Z, index: 2, cw },
    }
}

/// `moves_count` random layer turns: for each, one of the nine layers drawn
/// uniformly and a direction drawn with even odds. Which turns come is chance;
/// each is a turn of one of the nine layers.
pub fn shuffle_turns(moves_count: usize) -> (r: Vec<SliceTurn>)
    ensures
        r@.len() == moves_count,
        forall|i: int| 0 <= i < r@.len() ==> #[trigger] r@[i].index < 3,
{
    let mut rng = thread_rng();
    let mut turns: Vec<SliceTurn> = Vec::new();
    for k in 0..moves_count
        invariant
            turns@.len() == k,
            forall|i: int| 0 <= i < turns@.len() ==> #[trigger] turns@[i].index < 3,
    {
        let choice = random_below(&mut rng, 9);
        let cw = random_ratio(&mut rng, 1, 2);
        let t = slice_turn_for_choice(choice, cw);
        turns.push(t);
    }
    turns
}

/// The nine choices name the nine layer turns of a direction, each once:
/// every layer has exactly one choice below 9 that turns it.
pub proof fn law_choices_cover_layers(axis: Axis, index: usize, cw: bool)
    ensures
        index < 3 ==> exists|choice: int|
            0 <= choice < 9 && #[trigger] choice_turn(choice, cw) == (SliceTurn { axis, index, cw }),
        forall|c1: int, c2: int|
            0 <= c1 < 9 && 0 <= c2 < 9 && #[trigger] choice_turn(c1, cw) == #[trigger] choice_turn(c2, cw)
                ==> c1 == c2,
{
    if index < 3 {
        let base: int = match axis {
            Axis::X => 0,
            Axis::Y => 3,
            Axis::Z => 6,
        };
        assert(choice_turn(base + index, cw) == (SliceTurn { axis, index, cw }));
    }
}

} // verus!
