//! The decisions of the frame loop.
//!
//! Once per frame the program drains the pending window events into a list
//! and hands it to `FrameLoop::process_events`, which applies them in order
//! to the geometry model and then lets the cursor tick once. Growth is thus
//! tied to batches of events, not to frames: a frame without events does not
//! tick. `FrameLoop::take_mesh` then says whether the render buffers are
//! stale, and hands out fresh ones if they are. Drawing and presenting stay
//! with the caller and happen every frame.

use vstd::prelude::*;
use crate::color::is_unit_color;
use crate::fixed::Fixed;
use crate::mesh::Vertex;
use crate::pseudocube::{white, CubeModel, Pseudocube};

verus! {

/// A window event, as far as the frame loop tells events apart.
#[derive(Debug, Clone, Copy, PartialEq, Eq)]
pub enum Event {
    /// The window was asked to close.
    CloseRequested,
    /// The escape key was pressed.
    EscapePressed,
    /// The viewport changed to the given width and height, in pixels.
    Resized(u32, u32),
    /// The pointer moved to the given pixel, counted from the upper left.
    MouseMoved(i32, i32),
    /// The left mouse button went down.
    LeftPressed,
    /// The left mouse button went up.
    LeftReleased,
    /// Any other event.
    Other,
}

/// What a `FrameLoop` holds, as a mathematical value.
pub struct LoopModel {
    /// The geometry model.
    pub cube: CubeModel,
    /// Width of the viewport in pixels.
    pub width: u32,
    /// Height of the viewport in pixels.
    pub height: u32,
    /// Whether the render buffers are stale.
    pub dirty: bool,
    /// Whether the loop goes on.
    pub running: bool,
}

/// The quotient of two whole numbers as a fixed-point number.
pub open spec fn spec_quotient(num: int, den: int) -> Fixed {
    Fixed::spec_from_int(num).spec_div(Fixed::spec_from_int(den))
}

/// Whether every colour of the list has its channels in `[0, 1)`.
pub open spec fn all_unit_colors(colors: Seq<[Fixed; 3]>) -> bool {
    forall|i: int| 0 <= i < colors.len() ==> is_unit_color(#[trigger] colors[i])
}

/// Whether the list holds a resize.
pub open spec fn has_resize(events: Seq<Event>) -> bool {
    exists|i: int| 0 <= i < events.len() && (#[trigger] events[i]) is Resized
}

impl LoopModel {
    /// A running loop around `cube` whose buffers are up to date.
    pub open spec fn initial(cube: CubeModel, width: u32, height: u32) -> LoopModel {
        LoopModel { cube, width, height, dirty: false, running: true }
    }

    /// The effect of one event. `next_color` is the colour that the cursor
    /// takes if the event commits a square.
    ///
    /// Close and escape stop the loop. A resize stores the viewport and its
    /// aspect ratio, a pointer move places the cursor at the pointer's
    /// share of the viewport, and both mark the buffers stale. The left
    /// button starts a square when it goes down and commits it when it goes
    /// up. Everything else is ignored.
    pub open spec fn handle(self, event: Event, next_color: [Fixed; 3]) -> LoopModel {
        match event {
            Event::CloseRequested => LoopModel { running: false, ..self },
            Event::EscapePressed => LoopModel { running: false, ..self },
            Event::Resized(w, h) => LoopModel {
                cube: self.cube.update_ratio(spec_quotient(w as int, h as int)),
                width: w,
                height: h,
                dirty: true,
                ..self
            },
            Event::MouseMoved(x, y) => LoopModel {
                cube: self.cube.update_cursor_position(
                    spec_quotient(x as int, self.width as int),
                    spec_quotient(y as int, self.height as int),
                ),
                dirty: true,
                ..self
            },
            Event::LeftPressed => LoopModel { cube: self.cube.start_growing(), ..self },
            Event::LeftReleased => LoopModel {
                cube: self.cube.stop_growing(next_color),
                ..self
            },
            Event::Other => self,
        }
    }

    /// The effect of a list of events, applied in order; event `i` commits
    /// with `colors[i]`.
    pub open spec fn handle_all(self, events: Seq<Event>, colors: Seq<[Fixed; 3]>) -> LoopModel
        decreases events.len(),
    {
        if events.len() == 0 {
            self
        } else {
            self.handle_all(events.drop_last(), colors.drop_last()).handle(
                events.last(),
                colors.last(),
            )
        }
    }

    /// The effect of one batch: its events in order, then one tick. An empty
    /// batch changes nothing.
    pub open spec fn process(self, events: Seq<Event>, colors: Seq<[Fixed; 3]>) -> LoopModel {
        if events.len() == 0 {
            self
        } else {
            let after = self.handle_all(events, colors);
            LoopModel { cube: after.cube.tick(), ..after }
        }
    }
}

/// Divides two whole numbers.
fn quotient(num: i64, den: i64) -> (q: Fixed)
    ensures
        q == spec_quotient(num as int, den as int),
{
    Fixed::from_int(num).saturating_div(Fixed::from_int(den))
}

/// The state of the frame loop: the geometry model, the size of the
/// viewport, whether the render buffers are stale and whether the loop goes
/// on.
#[derive(Debug)]
pub struct FrameLoop {
    cube: Pseudocube,
    width: u32,
    height: u32,
    dirty: bool,
    running: bool,
}

impl View for FrameLoop {
    type V = LoopModel;

    closed spec fn view(&self) -> LoopModel {
        LoopModel {
            cube: self.cube@,
            width: self.width,
            height: self.height,
            dirty: self.dirty,
            running: self.running,
        }
    }
}

impl FrameLoop {
    /// A running loop around `cube` in a viewport of the given size. The
    /// render buffers count as up to date.
    pub fn new(cube: Pseudocube, width: u32, height: u32) -> (frame: FrameLoop)
        ensures
            frame@ == LoopModel::initial(cube@, width, height),
    {
        FrameLoop { cube, width, height, dirty: false, running: true }
    }

    /// Applies one event; if it commits a square, the cursor goes on with
    /// `next_color`.
    pub fn handle_event_with(&mut self, event: Event, next_color: [Fixed; 3])
        ensures
            final(self)@ == old(self)@.handle(event, next_color),
    {
        match event {
            Event::CloseRequested => {
                self.running = false;
            },
            Event::EscapePressed => {
                self.running = false;
            },
            Event::Resized(w, h) => {
                self.cube.update_ratio(quotient(w as i64, h as i64));
                self.width = w;
                self.height = h;
                self.dirty = true;
            },
            Event::MouseMoved(x, y) => {
                self.cube.update_cursor_position(
                    quotient(x as i64, self.width as i64),
                    quotient(y as i64, self.height as i64),
                );
                self.dirty = true;
            },
            Event::LeftPressed => {
                self.cube.start_growing();
            },
            Event::LeftReleased => {
                self.cube.stop_growing_with(next_color);
            },
            Event::Other => {},
        }
    }

    /// Applies one event; if it commits a square, the cursor goes on with a
    /// random colour.
    ///
    /// Whatever colour is drawn, the state changes as `handle_event_with`
    /// says for the colour that the cursor carries afterwards, and a colour
    /// that was drawn has every channel in `[0, 1)`.
    pub fn handle_event(&mut self, event: Event)
        ensures
            final(self)@ == old(self)@.handle(event, final(self)@.cube.cursor.color()),
            event is LeftReleased && old(self)@.cube.cursor is Growing ==> is_unit_color(
                final(self)@.cube.cursor.color(),
            ),
    {
        match event {
            Event::LeftReleased => {
                self.cube.stop_growing();
            },
            _ => {
                self.handle_event_with(event, white());
            },
        }
    }

    /// Applies a batch of events in order and then ticks once; an empty
    /// batch changes nothing. Returns whether the batch held a resize, after
    /// which the caller has to fit its render targets to the window again.
    ///
    /// Each square that a release commits leaves the cursor with a random
    /// colour. Whatever colours are drawn, the state changes as
    /// `LoopModel::process` says for some list of colours with channels in
    /// `[0, 1)`.
    pub fn process_events(&mut self, events: &Vec<Event>) -> (resync: bool)
        ensures
            exists|colors: Seq<[Fixed; 3]>|
                colors.len() == events@.len() && all_unit_colors(colors) && final(self)@ == (
                #[trigger] old(self)@.process(events@, colors)),
            resync == has_resize(events@),
    {
        let ghost start = self@;
        let ghost mut colors: Seq<[Fixed; 3]> = Seq::empty();
        let mut resync = false;
        let mut i: usize = 0;
        while i < events.len()
            invariant
                i <= events@.len(),
                colors.len() == i,
                all_unit_colors(colors),
                self@ == start.handle_all(events@.take(i as int), colors),
                resync == has_resize(events@.take(i as int)),
            decreases events@.len() - i,
        {
            let event = events[i];
            let ghost before = self@;
            let ghost seen = colors;
            self.handle_event(event);
            if let Event::Resized(_, _) = event {
                resync = true;
            }
            proof {
                let drawn = event is LeftReleased && before.cube.cursor is Growing;
                let color = if drawn {
                    self@.cube.cursor.color()
                } else {
                    [Fixed { raw: 0 }, Fixed { raw: 0 }, Fixed { raw: 0 }]
                };
                colors = seen.push(color);
                let shorter = events@.take(i as int);
                let longer = events@.take(i as int + 1);
                assert(longer.drop_last() =~= shorter);
                assert(colors.drop_last() =~= seen);
                assert(self@ == before.handle(event, color));
                assert(has_resize(longer) == (has_resize(shorter) || event is Resized)) by {
                    if has_resize(shorter) {
                        let k = choose|k: int|
                            0 <= k < shorter.len() && (#[trigger] shorter[k]) is Resized;
                        assert(longer[k] is Resized);
                    }
                    if event is Resized {
                        assert(longer[i as int] is Resized);
                    }
                    if has_resize(longer) {
                        let k = choose|k: int|
                            0 <= k < longer.len() && (#[trigger] longer[k]) is Resized;
                        assert(k < i ==> shorter[k] is Resized);
                    }
                }
            }
            i += 1;
        }
        assert(events@.take(i as int) =~= events@);
        if events.len() > 0 {
            self.cube.tick();
        }
        assert(self@ == start.process(events@, colors));
        resync
    }

    /// Hands out fresh vertex and index lists if the render buffers are
    /// stale, and marks them up to date; hands out nothing if they are not.
    pub fn take_mesh(&mut self) -> (mesh: Option<(Vec<Vertex>, Vec<u16>)>)
        ensures
            final(self)@ == (LoopModel { dirty: false, ..old(self)@ }),
            mesh is Some <==> old(self)@.dirty,
            mesh matches Some(m) ==> m.0@ == old(self)@.cube.vertices(),
            mesh matches Some(m) ==> m.1@ == old(self)@.cube.indices(),
    {
        if self.dirty {
            self.dirty = false;
            Some(self.cube.get_vertices_indices())
        } else {
            None
        }
    }

    /// Whether the loop goes on: no close request or escape has been seen.
    pub fn is_running(&self) -> (running: bool)
        ensures
            running == self@.running,
    {
        self.running
    }

    /// Whether the render buffers are stale.
    pub fn is_dirty(&self) -> (dirty: bool)
        ensures
            dirty == self@.dirty,
    {
        self.dirty
    }

    /// The size of the viewport in pixels, width first.
    pub fn viewport(&self) -> (size: (u32, u32))
        ensures
            size == (self@.width, self@.height),
    {
        (self.width, self.height)
    }

    /// The geometry model.
    pub fn cube(&self) -> (cube: &Pseudocube)
        ensures
            cube@ == self@.cube,
    {
        &self.cube
    }
}

} // verus!
