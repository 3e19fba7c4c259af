//! A pile of coloured squares that the mouse draws, and the render data to
//! show it.
//!
//! `Pseudocube` is the geometry model: the squares placed so far, the cursor
//! that places the next one, and the aspect ratio of the viewport. It turns
//! itself into a vertex list and an index list, two triangles per square.
//! `FrameLoop` holds what the frame loop decides: how each window event
//! changes the model, when the cursor ticks, and when the render buffers have
//! to be rebuilt.
//!
//! All numbers are `Fixed`: decimal fixed-point numbers whose arithmetic is
//! total and saturating. The models `CubeModel` and `LoopModel` say what each
//! operation does; the module `laws` holds what follows for every pile and
//! every run of events.

pub mod color;
pub mod cursor;
pub mod fixed;
pub mod frame_loop;
pub mod laws;
pub mod mesh;
pub mod pseudocube;

pub use crate::cursor::{Cursor, Square};
pub use crate::fixed::Fixed;
pub use crate::frame_loop::{Event, FrameLoop};
pub use crate::mesh::Vertex;
pub use crate::pseudocube::Pseudocube;
