//! The geometry model: the squares placed so far, the cursor that places the
//! next one, and the aspect ratio under which they are drawn.

use vstd::prelude::*;
use crate::color::{is_unit_color, random_color};
use crate::cursor::{Cursor, Square, GROWTH_STEP, INITIAL_SIZE};
use crate::fixed::{Fixed, MINUS_TWO, SCALE, TWO};
use crate::mesh::{
    corner, index_at, mesh_indices, mesh_vertices, square_indices, square_vertices, Vertex,
};

verus! {

/// What a `Pseudocube` holds, as a mathematical value.
pub struct CubeModel {
    /// The squares in the order in which they were placed.
    pub squares: Seq<Square>,
    /// Width of the viewport over its height.
    pub ratio: Fixed,
    /// The cursor.
    pub cursor: Cursor,
}

/// White: every channel at one.
pub open spec fn spec_white() -> [Fixed; 3] {
    [Fixed { raw: SCALE }, Fixed { raw: SCALE }, Fixed { raw: SCALE }]
}

/// The device coordinate of a window-relative `x` in `[0, 1]`: `2x - 1`.
pub open spec fn device_x(x: Fixed) -> Fixed {
    (Fixed { raw: TWO }).spec_mul(x).spec_sub(Fixed { raw: SCALE })
}

/// The device coordinate of a window-relative `y` in `[0, 1]`: `-2y + 1`.
/// The window's `y` axis points down, the device's points up.
pub open spec fn device_y(y: Fixed) -> Fixed {
    (Fixed { raw: MINUS_TWO }).spec_mul(y).spec_add(Fixed { raw: SCALE })
}

impl CubeModel {
    /// The model at start: no square, a square viewport, and a white cursor
    /// growing from size one in the upper right corner.
    pub open spec fn initial() -> CubeModel {
        CubeModel::with_cursor(
            Cursor::Growing(
                (Fixed { raw: SCALE }, Fixed { raw: SCALE }),
                Fixed { raw: SCALE },
                spec_white(),
            ),
        )
    }

    /// A model with no square, a square viewport and the given cursor.
    pub open spec fn with_cursor(cursor: Cursor) -> CubeModel {
        CubeModel { squares: Seq::empty(), ratio: Fixed { raw: SCALE }, cursor }
    }

    /// Appends a square.
    pub open spec fn add_square(
        self,
        x: Fixed,
        y: Fixed,
        size: Fixed,
        color: [Fixed; 3],
    ) -> CubeModel {
        CubeModel { squares: self.squares.push(Square { pos: (x, y), size, color }), ..self }
    }

    /// Replaces the aspect ratio.
    pub open spec fn update_ratio(self, ratio: Fixed) -> CubeModel {
        CubeModel { ratio, ..self }
    }

    /// Moves the cursor to the device position of the window-relative
    /// `(x, y)`; the cursor keeps its variant, size and colour.
    pub open spec fn update_cursor_position(self, x: Fixed, y: Fixed) -> CubeModel {
        CubeModel { cursor: self.cursor.moved_to((device_x(x), device_y(y))), ..self }
    }

    /// A plain cursor starts to grow at the initial size; a growing one is
    /// left alone.
    pub open spec fn start_growing(self) -> CubeModel {
        match self.cursor {
            Cursor::Plain(xy, color) => CubeModel {
                cursor: Cursor::Growing(xy, Fixed { raw: INITIAL_SIZE }, color),
                ..self
            },
            Cursor::Growing(_, _, _) => self,
        }
    }

    /// A growing cursor commits its square and becomes plain, in the same
    /// place and with `next_color`; a plain one is left alone.
    pub open spec fn stop_growing(self, next_color: [Fixed; 3]) -> CubeModel {
        match self.cursor {
            Cursor::Plain(_, _) => self,
            Cursor::Growing(xy, size, color) => CubeModel {
                squares: self.squares.push(Square { pos: xy, size, color }),
                cursor: Cursor::Plain(xy, next_color),
                ..self
            },
        }
    }

    /// A growing cursor gains one growth step; a plain one is left alone.
    pub open spec fn tick(self) -> CubeModel {
        match self.cursor {
            Cursor::Plain(_, _) => self,
            Cursor::Growing(xy, size, color) => CubeModel {
                cursor: Cursor::Growing(
                    xy,
                    size.spec_add(Fixed { raw: GROWTH_STEP }),
                    color,
                ),
                ..self
            },
        }
    }

    /// The vertex list: four corners for each square, in placing order.
    pub open spec fn vertices(self) -> Seq<Vertex> {
        mesh_vertices(self.squares, self.ratio)
    }

    /// The index list: six indices for each square, in placing order.
    pub open spec fn indices(self) -> Seq<u16> {
        mesh_indices(self.squares.len())
    }
}

/// White: every channel at one.
#[verifier::when_used_as_spec(spec_white)]
pub fn white() -> (c: [Fixed; 3])
    ensures
        c == spec_white(),
{
    [Fixed::from_raw(SCALE), Fixed::from_raw(SCALE), Fixed::from_raw(SCALE)]
}

/// The finite pile of squares drawn so far, with the cursor that draws the
/// next one.
#[derive(Debug)]
pub struct Pseudocube {
    squares: Vec<Square>,
    ratio: Fixed,
    cursor: Cursor,
}

impl View for Pseudocube {
    type V = CubeModel;

    closed spec fn view(&self) -> CubeModel {
        CubeModel { squares: self.squares@, ratio: self.ratio, cursor: self.cursor }
    }
}

impl Pseudocube {
    /// An empty pile in a square viewport. The cursor starts out growing, white,
    /// at size one in the upper right corner.
    pub fn new() -> (cube: Pseudocube)
        ensures
            cube@ == CubeModel::initial(),
    {
        let one = Fixed::from_raw(SCALE);
        Pseudocube::with_cursor(Cursor::Growing((one, one), one, white()))
    }

    /// An empty pile in a square viewport, with the given cursor.
    pub fn with_cursor(cursor: Cursor) -> (cube: Pseudocube)
        ensures
            cube@ == CubeModel::with_cursor(cursor),
    {
        Pseudocube { squares: Vec::new(), ratio: Fixed::from_raw(SCALE), cursor }
    }

    /// Appends a square, whatever its position, size and colour.
    pub fn add_square(&mut self, x: Fixed, y: Fixed, size: Fixed, color: [Fixed; 3])
        ensures
            final(self)@ == old(self)@.add_square(x, y, size, color),
    {
        let sq = Square { pos: (x, y), size, color };
        self.squares.push(sq);
    }

    /// Builds the vertex and index lists of the squares placed so far.
    ///
    /// The result depends on the squares and the ratio alone and the pile is
    /// left as it was.
    pub fn get_vertices_indices(&self) -> (mesh: (Vec<Vertex>, Vec<u16>))
        ensures
            mesh.0@ == self@.vertices(),
            mesh.1@ == self@.indices(),
            mesh.0@.len() == 4 * self@.squares.len(),
            mesh.1@.len() == 6 * self@.squares.len(),
    {
        let mut vertices: Vec<Vertex> = Vec::new();
        let mut indices: Vec<u16> = Vec::new();
        let count: usize = self.squares.len();
        let mut i: usize = 0;
        while i < count
            invariant
                count == self.squares@.len(),
                i <= count,
                vertices@.len() == 4 * i,
                indices@.len() == 6 * i,
                forall|j: int|
                    0 <= j < 4 * i ==> vertices@[j] == corner(
                        self.squares@[j / 4],
                        self.ratio,
                        j % 4,
                    ),
                forall|j: int| 0 <= j < 6 * i ==> indices@[j] == index_at(j) as u16,
            decreases count - i,
        {
            let corners = square_vertices(self.squares[i], self.ratio);
            let slots = square_indices(i);
            vertices.push(corners[0]);
            vertices.push(corners[1]);
            vertices.push(corners[2]);
            vertices.push(corners[3]);
            indices.push(slots[0]);
            indices.push(slots[1]);
            indices.push(slots[2]);
            indices.push(slots[3]);
            indices.push(slots[4]);
            indices.push(slots[5]);
            i += 1;
        }
        assert(vertices@ =~= self@.vertices());
        assert(indices@ =~= self@.indices());
        (vertices, indices)
    }

    /// Stores the aspect ratio (viewport width over height) under which the
    /// next vertex list is built.
    pub fn update_ratio(&mut self, ratio: Fixed)
        ensures
            final(self)@ == old(self)@.update_ratio(ratio),
    {
        self.ratio = ratio
    }

    /// Moves the cursor to the window-relative position `(x, y)`, each in
    /// `[0, 1]` from the upper left corner: in device space to
    /// `(2x - 1, -2y + 1)`.
    pub fn update_cursor_position(&mut self, x: Fixed, y: Fixed)
        ensures
            final(self)@ == old(self)@.update_cursor_position(x, y),
    {
        let one = Fixed::from_raw(SCALE);
        let x = Fixed::from_raw(TWO).saturating_mul(x).saturating_sub(one);
        let y = Fixed::from_raw(MINUS_TWO).saturating_mul(y).saturating_add(one);
        let cursor = match self.cursor {
            Cursor::Plain(_, color) => Cursor::Plain((x, y), color),
            Cursor::Growing(_, size, color) => Cursor::Growing((x, y), size, color),
        };
        self.cursor = cursor;
    }

    /// Starts a square under a plain cursor, at the initial size. Does nothing
    /// while one is growing.
    pub fn start_growing(&mut self)
        ensures
            final(self)@ == old(self)@.start_growing(),
            final(self)@.squares == old(self)@.squares,
    {
        if let Cursor::Plain(xy, color) = self.cursor {
            self.cursor = Cursor::Growing(xy, Fixed::from_raw(INITIAL_SIZE), color)
        }
    }

    /// Commits the growing square and leaves the cursor plain, with
    /// `next_color` for the square to come. Does nothing under a plain cursor.
    pub fn stop_growing_with(&mut self, next_color: [Fixed; 3])
        ensures
            final(self)@ == old(self)@.stop_growing(next_color),
            final(self)@.squares.len() == old(self)@.squares.len() + if old(self)@.cursor
                is Growing {
                1nat
            } else {
                0nat
            },
    {
        if let Cursor::Growing(xy, size, color) = self.cursor {
            self.squares.push(Cursor::Growing(xy, size, color).to_square());
            self.cursor = Cursor::Plain(xy, next_color)
        }
    }

    /// Commits the growing square and leaves the cursor plain, with a random
    /// colour for the square to come. Does nothing under a plain cursor.
    ///
    /// Whatever colour is drawn, the pile changes as `stop_growing_with` says
    /// for the colour that the cursor carries afterwards, and a colour that
    /// was drawn has every channel in `[0, 1)`.
    pub fn stop_growing(&mut self)
        ensures
            final(self)@ == old(self)@.stop_growing(final(self)@.cursor.color()),
            old(self)@.cursor is Growing ==> is_unit_color(final(self)@.cursor.color()),
            final(self)@.squares.len() == old(self)@.squares.len() + if old(self)@.cursor
                is Growing {
                1nat
            } else {
                0nat
            },
    {
        if let Cursor::Growing(_, _, _) = self.cursor {
            let next_color = random_color();
            self.stop_growing_with(next_color);
        }
    }

    /// Lets a growing square gain one growth step. Does nothing under a plain
    /// cursor. No largest size is enforced: growth ends only where the range
    /// of `Fixed` does.
    pub fn tick(&mut self)
        ensures
            final(self)@ == old(self)@.tick(),
    {
        if let Cursor::Growing(xy, size, color) = self.cursor {
            let grown = size.saturating_add(Fixed::from_raw(GROWTH_STEP));
            self.cursor = Cursor::Growing(xy, grown, color)
        }
    }

    /// The squares placed so far, oldest first.
    pub fn squares(&self) -> (squares: &Vec<Square>)
        ensures
            squares@ == self@.squares,
    {
        &self.squares
    }

    /// The cursor.
    pub fn cursor(&self) -> (cursor: Cursor)
        ensures
            cursor == self@.cursor,
    {
        self.cursor
    }

    /// The aspect ratio: viewport width over height.
    pub fn ratio(&self) -> (ratio: Fixed)
        ensures
            ratio == self@.ratio,
    {
        self.ratio
    }
}

} // verus!
