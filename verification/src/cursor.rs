//! Placed squares and the interactive cursor that draws them.

use vstd::prelude::*;
use crate::fixed::Fixed;

verus! {

/// Raw edge length of a square at the moment it starts to grow: 0.05.
pub const INITIAL_SIZE: i64 = 50_000;

/// Raw amount by which a growing square gains per tick: 0.01.
pub const GROWTH_STEP: i64 = 10_000;

/// A placed square: its centre in device space, its edge length and its
/// colour (red, green, blue).
#[derive(Debug, Clone, Copy, PartialEq, Eq)]
pub struct Square {
    pub pos: (Fixed, Fixed),
    pub size: Fixed,
    pub color: [Fixed; 3],
}

/// The interactive cursor.
///
/// `Plain(position, color)`: no square is being drawn; the colour is the one
/// the next square will have. `Growing(position, size, color)`: a square is
/// being sized under the pointer.
#[derive(Debug, Clone, Copy, PartialEq, Eq)]
pub enum Cursor {
    Plain((Fixed, Fixed), [Fixed; 3]),
    Growing((Fixed, Fixed), Fixed, [Fixed; 3]),
}

impl Cursor {
    /// Where the cursor is.
    pub open spec fn position(self) -> (Fixed, Fixed) {
        match self {
            Cursor::Plain(xy, _) => xy,
            Cursor::Growing(xy, _, _) => xy,
        }
    }

    /// The colour the cursor carries.
    pub open spec fn color(self) -> [Fixed; 3] {
        match self {
            Cursor::Plain(_, color) => color,
            Cursor::Growing(_, _, color) => color,
        }
    }

    /// The same cursor at another position.
    pub open spec fn moved_to(self, xy: (Fixed, Fixed)) -> Cursor {
        match self {
            Cursor::Plain(_, color) => Cursor::Plain(xy, color),
            Cursor::Growing(_, size, color) => Cursor::Growing(xy, size, color),
        }
    }

    /// The square that the cursor stands for: a growing cursor's own square,
    /// and for a plain cursor a square of the initial size.
    pub open spec fn spec_to_square(self) -> Square {
        match self {
            Cursor::Plain(xy, color) => Square {
                pos: xy,
                size: Fixed { raw: INITIAL_SIZE },
                color,
            },
            Cursor::Growing(xy, size, color) => Square { pos: xy, size, color },
        }
    }

    /// The square that the cursor stands for.
    pub fn to_square(self) -> (sq: Square)
        ensures
            sq == self.spec_to_square(),
    {
        match self {
            Cursor::Plain(xy, color) => Square {
                pos: xy,
                size: Fixed { raw: INITIAL_SIZE },
                color,
            },
            Cursor::Growing(xy, size, color) => Square { pos: xy, size, color },
        }
    }
}

} // verus!
