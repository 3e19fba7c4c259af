//! The render data of a list of squares: four vertices and six indices each.
//!
//! The vertices of square `i` stand at places `4i .. 4i + 3` of the vertex
//! list, in the corner order bottom-right, bottom-left, top-left, top-right.
//! Its six indices name the two triangles (first, second, third corner) and
//! (third, fourth, first corner). Indices are 16 bits wide, so the place of a
//! vertex is taken modulo 65536; below 16384 squares nothing wraps.

use vstd::prelude::*;
use crate::cursor::Square;
use crate::fixed::{Fixed, HALF, SCALE};

verus! {

/// Number of squares whose vertices a 16-bit index can tell apart.
pub const INDEX_PERIOD: usize = 16384;

/// One vertex of the render data: position, texture coordinate and colour.
#[derive(Debug, Clone, Copy, PartialEq, Eq)]
pub struct Vertex {
    pub pos: [Fixed; 2],
    pub uv: [Fixed; 2],
    pub color: [Fixed; 3],
}

/// The half-extents `(hx, hy)` of a square of edge `size` in a viewport whose
/// width is `ratio` times its height.
///
/// Half the edge is taken along the shorter device axis; along the longer
/// one it is shrunk, so that the square looks square on screen: in a wide
/// viewport (`ratio > 1`) `hx` is divided by the ratio, otherwise `hy` is
/// multiplied by it.
pub open spec fn spec_half_extents(size: Fixed, ratio: Fixed) -> (Fixed, Fixed) {
    let half = (Fixed { raw: HALF }).spec_mul(size);
    if ratio@ > SCALE {
        (half.spec_div(ratio), half)
    } else {
        (half, half.spec_mul(ratio))
    }
}

/// Whether corner `k` lies on the right-hand side of its square.
pub open spec fn is_right(k: int) -> bool {
    k == 0 || k == 3
}

/// Whether corner `k` lies on the upper side of its square.
pub open spec fn is_top(k: int) -> bool {
    k == 2 || k == 3
}

/// Corner `k` of a square: 0 bottom-right, 1 bottom-left, 2 top-left,
/// 3 top-right. The texture's `v` axis points down: the upper corners have
/// `v = 0`.
pub open spec fn corner(sq: Square, ratio: Fixed, k: int) -> Vertex {
    let h = spec_half_extents(sq.size, ratio);
    Vertex {
        pos: [
            if is_right(k) {
                sq.pos.0.spec_add(h.0)
            } else {
                sq.pos.0.spec_sub(h.0)
            },
            if is_top(k) {
                sq.pos.1.spec_add(h.1)
            } else {
                sq.pos.1.spec_sub(h.1)
            },
        ],
        uv: [
            Fixed { raw: if is_right(k) { SCALE } else { 0 } },
            Fixed { raw: if is_top(k) { 0 } else { SCALE } },
        ],
        color: sq.color,
    }
}

/// The corner that slot `s` of a square's six indices names: 0, 1, 2, 2, 3, 0.
pub open spec fn slot_corner(s: int) -> int {
    if s == 1 {
        1
    } else if s == 2 || s == 3 {
        2
    } else if s == 4 {
        3
    } else {
        0
    }
}

/// The index at place `j` of the index list.
pub open spec fn index_at(j: int) -> int {
    (4 * (j / 6) + slot_corner(j % 6)) % 0x1_0000
}

/// The vertex list of `squares` under `ratio`.
pub open spec fn mesh_vertices(squares: Seq<Square>, ratio: Fixed) -> Seq<Vertex> {
    Seq::new(4 * squares.len(), |j: int| corner(squares[j / 4], ratio, j % 4))
}

/// The index list of `count` squares.
pub open spec fn mesh_indices(count: nat) -> Seq<u16> {
    Seq::new(6 * count, |j: int| index_at(j) as u16)
}

/// Computes the half-extents of a square.
pub fn half_extents(size: Fixed, ratio: Fixed) -> (h: (Fixed, Fixed))
    ensures
        h == spec_half_extents(size, ratio),
{
    let half = Fixed::from_raw(HALF).saturating_mul(size);
    if ratio.raw > SCALE {
        (half.saturating_div(ratio), half)
    } else {
        (half, half.saturating_mul(ratio))
    }
}

/// The four vertices of a square, in corner order.
pub fn square_vertices(sq: Square, ratio: Fixed) -> (vs: [Vertex; 4])
    ensures
        forall|k: int| 0 <= k < 4 ==> vs[k] == corner(sq, ratio, k),
{
    let (hx, hy) = half_extents(sq.size, ratio);
    let left = sq.pos.0.saturating_sub(hx);
    let right = sq.pos.0.saturating_add(hx);
    let bottom = sq.pos.1.saturating_sub(hy);
    let top = sq.pos.1.saturating_add(hy);
    let zero = Fixed::from_raw(0);
    let one = Fixed::from_raw(SCALE);
    [
        Vertex { pos: [right, bottom], uv: [one, one], color: sq.color },
        Vertex { pos: [left, bottom], uv: [zero, one], color: sq.color },
        Vertex { pos: [left, top], uv: [zero, zero], color: sq.color },
        Vertex { pos: [right, top], uv: [one, zero], color: sq.color },
    ]
}

/// The six indices of square number `i`.
pub fn square_indices(i: usize) -> (indices: [u16; 6])
    ensures
        forall|s: int| 0 <= s < 6 ==> indices[s] == index_at(6 * i + s),
{
    let base: u16 = ((i % INDEX_PERIOD) as u16) * 4;
    [base, base + 1, base + 2, base + 2, base + 3, base]
}

} // verus!
