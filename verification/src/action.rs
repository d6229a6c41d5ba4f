use vstd::prelude::*;

verus! {

/// A move in the usual cube notation.
///
/// `prime` is the counter-clockwise variant; `wide` also turns the middle
/// layer next to the face.
#[derive(Clone, Copy, PartialEq, Eq, Structural, Debug)]
pub enum RubiksAction {
    Left { prime: bool, wide: bool },
    Right { prime: bool, wide: bool },
    Down { prime: bool, wide: bool },
    Up { prime: bool, wide: bool },
    Back { prime: bool, wide: bool },
    Front { prime: bool, wide: bool },
    Middle { prime: bool },
    Equatorial { prime: bool },
    Standing { prime: bool },
    RotateCubeX { prime: bool },
    RotateCubeY { prime: bool },
    RotateCubeZ { prime: bool },
}

/// The three axes of the cube: x runs left to right, y down to up, z back to front.
#[derive(Clone, Copy, PartialEq, Eq, Structural, Debug)]
pub enum Axis {
    X,
    Y,
    Z,
}

/// A quarter turn of one layer: the layer at `index` (0, 1 or 2) along `axis`.
#[derive(Clone, Copy, PartialEq, Eq, Structural, Debug)]
pub struct SliceTurn {
    pub axis: Axis,
    pub index: usize,
    pub cw: bool,
}

pub open spec fn slice_turn(axis: Axis, index: usize, cw: bool) -> SliceTurn {
    SliceTurn { axis, index, cw }
}

impl RubiksAction {
    pub open spec fn is_prime(self) -> bool {
        match self {
            RubiksAction::Left { prime, .. } => prime,
            RubiksAction::Right { prime, .. } => prime,
            RubiksAction::Down { prime, .. } => prime,
            RubiksAction::Up { prime, .. } => prime,
            RubiksAction::Back { prime, .. } => prime,
            RubiksAction::Front { prime, .. } => prime,
            RubiksAction::Middle { prime } => prime,
            RubiksAction::Equatorial { prime } => prime,
            RubiksAction::Standing { prime } => prime,
            RubiksAction::RotateCubeX { prime } => prime,
            RubiksAction::RotateCubeY { prime } => prime,
            RubiksAction::RotateCubeZ { prime } => prime,
        }
    }

    /// Only the six face moves can be wide.
    pub open spec fn is_wide(self) -> bool {
        match self {
            RubiksAction::Left { wide, .. } => wide,
            RubiksAction::Right { wide, .. } => wide,
            RubiksAction::Down { wide, .. } => wide,
            RubiksAction::Up { wide, .. } => wide,
            RubiksAction::Back { wide, .. } => wide,
            RubiksAction::Front { wide, .. } => wide,
            _ => false,
        }
    }

    /// The same move turned the other way.
    pub open spec fn inverted(self) -> RubiksAction {
        match self {
            RubiksAction::Left { prime, wide } => RubiksAction::Left { prime: !prime, wide },
            RubiksAction::Right { prime, wide } => RubiksAction::Right { prime: !prime, wide },
            RubiksAction::Down { prime, wide } => RubiksAction::Down { prime: !prime, wide },
            RubiksAction::Up { prime, wide } => RubiksAction::Up { prime: !prime, wide },
            RubiksAction::Back { prime, wide } => RubiksAction::Back { prime: !prime, wide },
            RubiksAction::Front { prime, wide } => RubiksAction::Front { prime: !prime, wide },
            RubiksAction::Middle { prime } => RubiksAction::Middle { prime: !prime },
            RubiksAction::Equatorial { prime } => RubiksAction::Equatorial { prime: !prime },
            RubiksAction::Standing { prime } => RubiksAction::Standing { prime: !prime },
            RubiksAction::RotateCubeX { prime } => RubiksAction::RotateCubeX { prime: !prime },
            RubiksAction::RotateCubeY { prime } => RubiksAction::RotateCubeY { prime: !prime },
            RubiksAction::RotateCubeZ { prime } => RubiksAction::RotateCubeZ { prime: !prime },
        }
    }

    /// The letter of the move: upper case for faces and layers, lower case for
    /// whole-cube rotations.
    pub open spec fn letter(self) -> char {
        match self {
            RubiksAction::Left { .. } => 'L',
            RubiksAction::Right { .. } => 'R',
            RubiksAction::Down { .. } => 'D',
            RubiksAction::Up { .. } => 'U',
            RubiksAction::Back { .. } => 'B',
            RubiksAction::Front { .. } => 'F',
            RubiksAction::Middle { .. } => 'M',
            RubiksAction::Equatorial { .. } => 'E',
            RubiksAction::Standing { .. } => 'S',
            RubiksAction::RotateCubeX { .. } => 'x',
            RubiksAction::RotateCubeY { .. } => 'y',
            RubiksAction::RotateCubeZ { .. } => 'z',
        }
    }

    /// The lower-case letter that writes a wide face move in the short style.
    pub open spec fn wide_letter(self) -> char {
        match self {
            RubiksAction::Left { .. } => 'l',
            RubiksAction::Right { .. } => 'r',
            RubiksAction::Down { .. } => 'd',
            RubiksAction::Up { .. } => 'u',
            RubiksAction::Back { .. } => 'b',
            RubiksAction::Front { .. } => 'f',
            _ => self.letter(),
        }
    }

    /// The move written out: a wide move is `Lw` when `wide_w` holds and `l`
    /// otherwise; a prime move ends in an apostrophe.
    pub open spec fn notation(self, wide_w: bool) -> Seq<char> {
        let base = if self.is_wide() {
            if wide_w {
                seq![self.letter(), 'w']
            } else {
                seq![self.wide_letter()]
            }
        } else {
            seq![self.letter()]
        };
        if self.is_prime() {
            base.push('\'')
        } else {
            base
        }
    }

    /// The layer turns that make up the move, in the order they are made.
    pub open spec fn turns(self) -> Seq<SliceTurn> {
        match self {
            RubiksAction::Left { prime, wide } => if wide {
                seq![slice_turn(Axis::X, 0, prime), slice_turn(Axis::X, 1, prime)]
            } else {
                seq![slice_turn(Axis::X, 0, prime)]
            },
            RubiksAction::Right { prime, wide } => if wide {
                seq![slice_turn(Axis::X, 2, !prime), slice_turn(Axis::X, 1, !prime)]
            } else {
                seq![slice_turn(Axis::X, 2, !prime)]
            },
            RubiksAction::Down { prime, wide } => if wide {
                seq![slice_turn(Axis::Y, 0, prime), slice_turn(Axis::Y, 1, prime)]
            } else {
                seq![slice_turn(Axis::Y, 0, prime)]
            },
            RubiksAction::Up { prime, wide } => if wide {
                seq![slice_turn(Axis::Y, 2, !prime), slice_turn(Axis::Y, 1, !prime)]
            } else {
                seq![slice_turn(Axis::Y, 2, !prime)]
            },
            RubiksAction::Back { prime, wide } => if wide {
                seq![slice_turn(Axis::Z, 0, prime), slice_turn(Axis::Z, 1, prime)]
            } else {
                seq![slice_turn(Axis::Z, 0, prime)]
            },
            RubiksAction::Front { prime, wide } => if wide {
                seq![slice_turn(Axis::Z, 2, !prime), slice_turn(Axis::Z, 1, !prime)]
            } else {
                seq![slice_turn(Axis::Z, 2, !prime)]
            },
            RubiksAction::Middle { prime } => seq![slice_turn(Axis::X, 1, prime)],
            RubiksAction::Equatorial { prime } => seq![slice_turn(Axis::Y, 1, prime)],
            RubiksAction::Standing { prime } => seq![slice_turn(Axis::Z, 1, prime)],
            RubiksAction::RotateCubeX { prime } => seq![
                slice_turn(Axis::X, 0, prime),
                slice_turn(Axis::X, 1, prime),
                slice_turn(Axis::X, 2, prime),
            ],
            RubiksAction::RotateCubeY { prime } => seq![
                slice_turn(Axis::Y, 0, prime),
                slice_turn(Axis::Y, 1, prime),
                slice_turn(Axis::Y, 2, prime),
            ],
            RubiksAction::RotateCubeZ { prime } => seq![
                slice_turn(Axis::Z, 0, !prime),
                slice_turn(Axis::Z, 1, !prime),
                slice_turn(Axis::Z, 2, !prime),
            ],
        }
    }

    /// The move in the cube notation.
    pub fn to_string_notation(&self, wide_w: bool) -> (r: &'static str)
        ensures
            r@ == self.notation(wide_w),
    {
        proof {
            reveal_strlit("Lw'"); reveal_strlit("Lw"); reveal_strlit("l'"); reveal_strlit("l"); reveal_strlit("L'"); reveal_strlit("L");
            reveal_strlit("Rw'"); reveal_strlit("Rw"); reveal_strlit("r'"); reveal_strlit("r"); reveal_strlit("R'"); reveal_strlit("R");
            reveal_strlit("Dw'"); reveal_strlit("Dw"); reveal_strlit("d'"); reveal_strlit("d"); reveal_strlit("D'"); reveal_strlit("D");
            reveal_strlit("Uw'"); reveal_strlit("Uw"); reveal_strlit("u'"); reveal_strlit("u"); reveal_strlit("U'"); reveal_strlit("U");
            reveal_strlit("Bw'"); reveal_strlit("Bw"); reveal_strlit("b'"); reveal_strlit("b"); reveal_strlit("B'"); reveal_strlit("B");
            reveal_strlit("Fw'"); reveal_strlit("Fw"); reveal_strlit("f'"); reveal_strlit("f"); reveal_strlit("F'"); reveal_strlit("F");
            reveal_strlit("M'"); reveal_strlit("M"); reveal_strlit("E'"); reveal_strlit("E"); reveal_strlit("S'"); reveal_strlit("S");
            reveal_strlit("x'"); reveal_strlit("x"); reveal_strlit("y'"); reveal_strlit("y"); reveal_strlit("z'"); reveal_strlit("z");
        }
        match *self {
            Self::Left { prime, wide } => if wide {
                if wide_w {
                    if prime { "Lw'" } else { "Lw" }
                } else {
                    if prime { "l'" } else { "l" }
                }
            } else {
                if prime { "L'" } else { "L" }
            },
            Self::Right { prime, wide } => if wide {
                if wide_w {
                    if prime { "Rw'" } else { "Rw" }
                } else {
                    if prime { "r'" } else { "r" }
                }
            } else {
                if prime { "R'" } else { "R" }
            },
            Self::Down { prime, wide } => if wide {
                if wide_w {
                    if prime { "Dw'" } else { "Dw" }
                } else {
                    if prime { "d'" } else { "d" }
                }
            } else {
                if prime { "D'" } else { "D" }
            },
            Self::Up { prime, wide } => if wide {
                if wide_w {
                    if prime { "Uw'" } else { "Uw" }
                } else {
                    if prime { "u'" } else { "u" }
                }
            } else {
                if prime { "U'" } else { "U" }
            },
            Self::Back { prime, wide } => if wide {
                if wide_w {
                    if prime { "Bw'" } else { "Bw" }
                } else {
                    if prime { "b'" } else { "b" }
                }
            } else {
                if prime { "B'" } else { "B" }
            },
            Self::Front { prime, wide } => if wide {
                if wide_w {
                    if prime { "Fw'" } else { "Fw" }
                } else {
                    if prime { "f'" } else { "f" }
                }
            } else {
                if prime { "F'" } else { "F" }
            },
            Self::Middle { prime } => if prime { "M'" } else { "M" },
            Self::Equatorial { prime } => if prime { "E'" } else { "E" },
            Self::Standing { prime } => if prime { "S'" } else { "S" },
            Self::RotateCubeX { prime } => if prime { "x'" } else { "x" },
            Self::RotateCubeY { prime } => if prime { "y'" } else { "y" },
            Self::RotateCubeZ { prime } => if prime { "z'" } else { "z" },        }
    }

    /// The move that undoes this one.
    pub fn inverse(&self) -> (r: RubiksAction)
        ensures
            r == self.inverted(),
    {
        match *self {
            Self::Left { prime, wide } => Self::Left { prime: !prime, wide },
            Self::Right { prime, wide } => Self::Right { prime: !prime, wide },
            Self::Down { prime, wide } => Self::Down { prime: !prime, wide },
            Self::Up { prime, wide } => Self::Up { prime: !prime, wide },
            Self::Back { prime, wide } => Self::Back { prime: !prime, wide },
            Self::Front { prime, wide } => Self::Front { prime: !prime, wide },
            Self::Middle { prime } => Self::Middle { prime: !prime },
            Self::Equatorial { prime } => Self::Equatorial { prime: !prime },
            Self::Standing { prime } => Self::Standing { prime: !prime },
            Self::RotateCubeX { prime } => Self::RotateCubeX { prime: !prime },
            Self::RotateCubeY { prime } => Self::RotateCubeY { prime: !prime },
            Self::RotateCubeZ { prime } => Self::RotateCubeZ { prime: !prime },
        }
    }

    /// The layer turns that make up the move, in order.
    pub fn slice_turns(&self) -> (r: Vec<SliceTurn>)
        ensures
            r@ == self.turns(),
    {
        let mut r: Vec<SliceTurn> = Vec::new();
        match *self {
            Self::Left { prime, wide } => {
                r.push(SliceTurn { axis: Axis::X, index: 0, cw: prime });
                if wide {
                    r.push(SliceTurn { axis: Axis::X, index: 1, cw: prime });
                }
            },
            Self::Right { prime, wide } => {
                r.push(SliceTurn { axis: Axis::X, index: 2, cw: !prime });
                if wide {
                    r.push(SliceTurn { axis: Axis::X, index: 1, cw: !prime });
                }
            },
            Self::Down { prime, wide } => {
                r.push(SliceTurn { axis: Axis::Y, index: 0, cw: prime });
                if wide {
                    r.push(SliceTurn { axis: Axis::Y, index: 1, cw: prime });
                }
            },
            Self::Up { prime, wide } => {
                r.push(SliceTurn { axis: Axis::Y, index: 2, cw: !prime });
                if wide {
                    r.push(SliceTurn { axis: Axis::Y, index: 1, cw: !prime });
                }
            },
            Self::Back { prime, wide } => {
                r.push(SliceTurn { axis: Axis::Z, index: 0, cw: prime });
                if wide {
                    r.push(SliceTurn { axis: Axis::Z, index: 1, cw: prime });
                }
            },
            Self::Front { prime, wide } => {
                r.push(SliceTurn { axis: Axis::Z, index: 2, cw: !prime });
                if wide {
                    r.push(SliceTurn { axis: Axis::Z, index: 1, cw: !prime });
                }
            },
            Self::Middle { prime } => {
                r.push(SliceTurn { axis: Axis::X, index: 1, cw: prime });
            },
            Self::Equatorial { prime } => {
                r.push(SliceTurn { axis: Axis::Y, index: 1, cw: prime });
            },
            Self::Standing { prime } => {
                r.push(SliceTurn { axis: Axis::Z, index: 1, cw: prime });
            },
            Self::RotateCubeX { prime } => {
                r.push(SliceTurn { axis: Axis::X, index: 0, cw: prime });
                r.push(SliceTurn { axis: Axis::X, index: 1, cw: prime });
                r.push(SliceTurn { axis: Axis::X, index: 2, cw: prime });
            },
            Self::RotateCubeY { prime } => {
                r.push(SliceTurn { axis: Axis::Y, index: 0, cw: prime });
                r.push(SliceTurn { axis: Axis::Y, index: 1, cw: prime });
                r.push(SliceTurn { axis: Axis::Y, index: 2, cw: prime });
            },
            Self::RotateCubeZ { prime } => {
                r.push(SliceTurn { axis: Axis::Z, index: 0, cw: !prime });
                r.push(SliceTurn { axis: Axis::Z, index: 1, cw: !prime });
                r.push(SliceTurn { axis: Axis::Z, index: 2, cw: !prime });
            },
        }
        assert(r@ =~= self.turns());
        r
    }
}

/// Undoing a move twice gives the move back.
pub proof fn lemma_inverse_involution(a: RubiksAction)
    ensures
        a.inverted().inverted() == a,
{
}

/// A move and its inverse differ only in direction: same letter, same width,
/// and the apostrophe on exactly one of them.
pub proof fn lemma_inverse_notation(a: RubiksAction, wide_w: bool)
    ensures
        a.inverted().letter() == a.letter(),
        a.inverted().is_wide() == a.is_wide(),
        a.inverted().is_prime() == !a.is_prime(),
        a.is_prime() ==> a.notation(wide_w) == a.inverted().notation(wide_w).push('\''),
        !a.is_prime() ==> a.inverted().notation(wide_w) == a.notation(wide_w).push('\''),
{
}

/// Two different moves are never written alike: the written form names the
/// move exactly.
pub proof fn law_notation_injective(a: RubiksAction, b: RubiksAction, wide_w: bool)
    ensures
        a.notation(wide_w) == b.notation(wide_w) ==> a == b,
{
    if a.notation(wide_w) == b.notation(wide_w) {
        let na = a.notation(wide_w);
        let nb = b.notation(wide_w);
        assert(na.len() == nb.len());
        assert(na[0] == nb[0]);
        assert(na.last() == nb.last());
        if na.len() == 3 {
            assert(na[1] == nb[1]);
        }
    }
}

} // verus!
