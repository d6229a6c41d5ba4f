use vstd::prelude::*;

use crate::side::Side;

verus! {

/// The sticker colours of a standard cube.
#[derive(Clone, Copy, PartialEq, Eq, Structural, Debug)]
pub enum CubeColor {
    Orange,
    Red,
    Yellow,
    White,
    Blue,
    Green,
}

/// The stickers of one small cube: `None` where a face points inside the big cube.
#[derive(Clone, Copy, PartialEq, Eq, Structural, Debug)]
pub struct CubeColors {
    pub left: Option<CubeColor>,
    pub right: Option<CubeColor>,
    pub down: Option<CubeColor>,
    pub up: Option<CubeColor>,
    pub back: Option<CubeColor>,
    pub front: Option<CubeColor>,
}

/// The colour of each face of the solved cube.
pub open spec fn side_color(s: Side) -> CubeColor {
    match s {
        Side::Left => CubeColor::Orange,
        Side::Right => CubeColor::Red,
        Side::Down => CubeColor::Yellow,
        Side::Up => CubeColor::White,
        Side::Back => CubeColor::Blue,
        Side::Front => CubeColor::Green,
    }
}

/// The red, green and blue bytes a sticker is drawn with; an inner face is dark grey.
pub open spec fn rgb_of(cc: Option<CubeColor>) -> (u8, u8, u8) {
    match cc {
        None => (64, 64, 64),
        Some(CubeColor::Orange) => (255, 165, 0),
        Some(CubeColor::Red) => (255, 0, 0),
        Some(CubeColor::Yellow) => (255, 255, 0),
        Some(CubeColor::White) => (255, 255, 255),
        Some(CubeColor::Blue) => (0, 0, 255),
        Some(CubeColor::Green) => (0, 255, 0),
    }
}

impl CubeColor {
    /// The opaque colour a sticker is drawn with.
    pub fn to_rgb(cc: Option<Self>) -> (r: (u8, u8, u8))
        ensures
            r == rgb_of(cc),
    {
        match cc {
            None => (64, 64, 64),
            Some(CubeColor::Orange) => (255, 165, 0),
            Some(CubeColor::Red) => (255, 0, 0),
            Some(CubeColor::Yellow) => (255, 255, 0),
            Some(CubeColor::White) => (255, 255, 255),
            Some(CubeColor::Blue) => (0, 0, 255),
            Some(CubeColor::Green) => (0, 255, 0),
        }
    }
}

impl From<Side> for CubeColor {
    fn from(value: Side) -> (r: Self)
        ensures
            r == side_color(value),
    {
        match value {
            Side::Left => CubeColor::Orange,
            Side::Right => CubeColor::Red,
            Side::Down => CubeColor::Yellow,
            Side::Up => CubeColor::White,
            Side::Back => CubeColor::Blue,
            Side::Front => CubeColor::Green,
        }
    }
}

impl vstd::std_specs::convert::FromSpecImpl<Side> for CubeColor {
    open spec fn obeys_from_spec() -> bool {
        true
    }

    open spec fn from_spec(v: Side) -> CubeColor {
        side_color(v)
    }
}

/// The stickers of the small cube at `(x, y, z)` of a solved cube: a face
/// carries the colour of its side exactly when it lies on the outside.
pub open spec fn colors_at(x: int, y: int, z: int) -> CubeColors {
    CubeColors {
        left: if x == 0 { Some(CubeColor::Orange) } else { None },
        right: if x == 2 { Some(CubeColor::Red) } else { None },
        down: if y == 0 { Some(CubeColor::Yellow) } else { None },
        up: if y == 2 { Some(CubeColor::White) } else { None },
        back: if z == 0 { Some(CubeColor::Blue) } else { None },
        front: if z == 2 { Some(CubeColor::Green) } else { None },
    }
}

impl CubeColors {
    /// The stickers of the small cube at `(x, y, z)` of a solved cube.
    pub fn at_position(x: usize, y: usize, z: usize) -> (r: CubeColors)
        ensures
            r == colors_at(x as int, y as int, z as int),
    {
        CubeColors {
            left: if x == 0 { Some(CubeColor::Orange) } else { None },
            right: if x == 2 { Some(CubeColor::Red) } else { None },
            down: if y == 0 { Some(CubeColor::Yellow) } else { None },
            up: if y == 2 { Some(CubeColor::White) } else { None },
            back: if z == 0 { Some(CubeColor::Blue) } else { None },
            front: if z == 2 { Some(CubeColor::Green) } else { None },
        }
    }
}

} // verus!
