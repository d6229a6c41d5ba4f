use vstd::prelude::*;

verus! {

/// A face of the whole cube, named by where it sits in the solved position.
#[derive(Clone, Copy, PartialEq, Eq, Structural, Debug)]
pub enum Side {
    Left,
    Right,
    Down,
    Up,
    Back,
    Front,
}

/// For one small cube: which original face each of its six faces shows now.
#[derive(Clone, Copy, PartialEq, Eq, Structural, Debug)]
pub struct Sides {
    pub left: Side,
    pub right: Side,
    pub down: Side,
    pub up: Side,
    pub back: Side,
    pub front: Side,
}

/// The orientation of a small cube that has never been turned.
pub open spec fn home_sides() -> Sides {
    Sides {
        left: Side::Left,
        right: Side::Right,
        down: Side::Down,
        up: Side::Up,
        back: Side::Back,
        front: Side::Front,
    }
}

impl Sides {
    /// A quarter turn about the x axis (left to right); clockwise seen from the right.
    /// Left and right stay; down, up, back and front cycle.
    pub open spec fn turned_x(self, cw: bool) -> Sides {
        Sides {
            left: self.left,
            right: self.right,
            down: if cw { self.front } else { self.back },
            up: if cw { self.back } else { self.front },
            back: if cw { self.down } else { self.up },
            front: if cw { self.up } else { self.down },
        }
    }

    /// A quarter turn about the y axis (down to up); down and up stay.
    pub open spec fn turned_y(self, cw: bool) -> Sides {
        Sides {
            left: if cw { self.front } else { self.back },
            right: if cw { self.back } else { self.front },
            down: self.down,
            up: self.up,
            back: if cw { self.left } else { self.right },
            front: if cw { self.right } else { self.left },
        }
    }

    /// A quarter turn about the z axis (back to front); back and front stay.
    pub open spec fn turned_z(self, cw: bool) -> Sides {
        Sides {
            left: if cw { self.up } else { self.down },
            right: if cw { self.down } else { self.up },
            down: if cw { self.left } else { self.right },
            up: if cw { self.right } else { self.left },
            back: self.back,
            front: self.front,
        }
    }

    pub fn rotated_x(self, cw: bool) -> (r: Self)
        ensures
            r == self.turned_x(cw),
    {
        let mut copy = self;
        copy.down = if cw { self.front } else { self.back };
        copy.up = if cw { self.back } else { self.front };
        copy.back = if cw { self.down } else { self.up };
        copy.front = if cw { self.up } else { self.down };
        copy
    }

    pub fn rotated_y(self, cw: bool) -> (r: Self)
        ensures
            r == self.turned_y(cw),
    {
        let mut copy = self;
        copy.left = if cw { self.front } else { self.back };
        copy.right = if cw { self.back } else { self.front };
        copy.back = if cw { self.left } else { self.right };
        copy.front = if cw { self.right } else { self.left };
        copy
    }

    pub fn rotated_z(self, cw: bool) -> (r: Self)
        ensures
            r == self.turned_z(cw),
    {
        let mut copy = self;
        copy.left = if cw { self.up } else { self.down };
        copy.right = if cw { self.down } else { self.up };
        copy.down = if cw { self.left } else { self.right };
        copy.up = if cw { self.right } else { self.left };
        copy
    }
}

impl Default for Sides {
    fn default() -> (r: Self)
        ensures
            r == home_sides(),
    {
        Sides {
            left: Side::Left,
            right: Side::Right,
            down: Side::Down,
            up: Side::Up,
            back: Side::Back,
            front: Side::Front,
        }
    }
}

/// A quarter turn followed by the opposite quarter turn about the same axis
/// leaves a small cube as it was.
pub proof fn lemma_turn_back(s: Sides, cw: bool)
    ensures
        s.turned_x(cw).turned_x(!cw) == s,
        s.turned_y(cw).turned_y(!cw) == s,
        s.turned_z(cw).turned_z(!cw) == s,
{
}

/// Four quarter turns in the same direction about one axis leave a small cube
/// as it was.
pub proof fn lemma_four_turns(s: Sides, cw: bool)
    ensures
        s.turned_x(cw).turned_x(cw).turned_x(cw).turned_x(cw) == s,
        s.turned_y(cw).turned_y(cw).turned_y(cw).turned_y(cw) == s,
        s.turned_z(cw).turned_z(cw).turned_z(cw).turned_z(cw) == s,
{
}

} // verus!
