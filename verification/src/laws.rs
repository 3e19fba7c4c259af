//! Laws of the geometry model and of the frame loop, proved over their
//! models `CubeModel` and `LoopModel`.

use vstd::prelude::*;
use crate::cursor::{Cursor, Square, GROWTH_STEP, INITIAL_SIZE};
use crate::fixed::Fixed;
use crate::frame_loop::{Event, LoopModel};
use crate::mesh::{corner, slot_corner, INDEX_PERIOD};
use crate::pseudocube::{device_x, device_y, CubeModel};

verus! {

/// One call on the mouse button's behalf.
pub enum ButtonCall {
    /// `start_growing`.
    Start,
    /// `stop_growing`, leaving the cursor with the given colour if it
    /// commits a square.
    Stop([Fixed; 3]),
}

/// The model after one button call.
pub open spec fn after_call(model: CubeModel, call: ButtonCall) -> CubeModel {
    match call {
        ButtonCall::Start => model.start_growing(),
        ButtonCall::Stop(next_color) => model.stop_growing(next_color),
    }
}

/// The model after a sequence of button calls, made in order.
pub open spec fn after_calls(model: CubeModel, calls: Seq<ButtonCall>) -> CubeModel
    decreases calls.len(),
{
    if calls.len() == 0 {
        model
    } else {
        after_call(after_calls(model, calls.drop_last()), calls.last())
    }
}

/// Whether the cursor is growing after a sequence of button calls, given
/// whether it was growing before: the last call decides.
pub open spec fn growing_after(growing: bool, calls: Seq<ButtonCall>) -> bool {
    if calls.len() == 0 {
        growing
    } else {
        calls.last() is Start
    }
}

/// The number of calls in a sequence that complete a square: the stops
/// that find the cursor growing.
pub open spec fn completed(growing: bool, calls: Seq<ButtonCall>) -> nat
    decreases calls.len(),
{
    if calls.len() == 0 {
        0
    } else {
        let before = calls.drop_last();
        let one: nat = if calls.last() is Stop && growing_after(growing, before) {
            1
        } else {
            0
        };
        completed(growing, before) + one
    }
}

/// The model after `n` ticks.
pub open spec fn after_ticks(model: CubeModel, n: nat) -> CubeModel
    decreases n,
{
    if n == 0 {
        model
    } else {
        after_ticks(model, (n - 1) as nat).tick()
    }
}

/// Over any sequence of `start_growing` and `stop_growing` calls the list
/// of squares grows by exactly one for each stop that finds the cursor
/// growing, and not at all for the other calls. The squares that were there
/// stay in place, and the cursor ends up growing exactly if the last call was
/// a start.
pub proof fn lemma_button_calls(model: CubeModel, calls: Seq<ButtonCall>)
    ensures
        after_calls(model, calls).squares.len() == model.squares.len() + completed(
            model.cursor is Growing,
            calls,
        ),
        after_calls(model, calls).squares.take(model.squares.len() as int) == model.squares,
        after_calls(model, calls).cursor is Growing == growing_after(
            model.cursor is Growing,
            calls,
        ),
        after_calls(model, calls).ratio == model.ratio,
    decreases calls.len(),
{
    if calls.len() > 0 {
        let before = after_calls(model, calls.drop_last());
        lemma_button_calls(model, calls.drop_last());
        assert(after_call(before, calls.last()).squares.take(model.squares.len() as int)
            =~= before.squares.take(model.squares.len() as int));
    } else {
        assert(model.squares.take(model.squares.len() as int) =~= model.squares);
    }
}

/// A single `start_growing` never changes the list of squares; a single
/// `stop_growing` appends the cursor's square if the cursor is growing and
/// changes nothing if it is plain.
pub proof fn lemma_one_button_call(model: CubeModel, next_color: [Fixed; 3])
    ensures
        model.start_growing().squares == model.squares,
        model.start_growing().start_growing() == model.start_growing(),
        model.cursor is Plain ==> model.stop_growing(next_color) == model,
        model.cursor is Growing ==> model.stop_growing(next_color).squares == model.squares.push(
            model.cursor.spec_to_square(),
        ),
        model.stop_growing(next_color).stop_growing(next_color) == model.stop_growing(
            next_color,
        ),
{
}

/// The render data is a function of the squares and the ratio alone: two
/// models that agree on both have the same vertex and index lists, whatever
/// their cursors.
pub proof fn lemma_mesh_is_determined(a: CubeModel, b: CubeModel)
    requires
        a.squares == b.squares,
        a.ratio == b.ratio,
    ensures
        a.vertices() == b.vertices(),
        a.indices() == b.indices(),
{
}

/// No move of the cursor changes the render data: not a pointer move, not a
/// press and not a tick.
pub proof fn lemma_cursor_is_not_drawn(model: CubeModel, x: Fixed, y: Fixed)
    ensures
        model.update_cursor_position(x, y).vertices() == model.vertices(),
        model.update_cursor_position(x, y).indices() == model.indices(),
        model.start_growing().vertices() == model.vertices(),
        model.start_growing().indices() == model.indices(),
        model.tick().vertices() == model.vertices(),
        model.tick().indices() == model.indices(),
{
}

/// Whatever the number of squares, there are four vertices and six indices
/// for each.
pub proof fn lemma_mesh_lengths(model: CubeModel)
    ensures
        model.vertices().len() == 4 * model.squares.len(),
        model.indices().len() == 6 * model.squares.len(),
{
}

/// The vertices of square `i` are its four corners, at places `4i` to
/// `4i + 3` of the vertex list.
pub proof fn lemma_square_vertices(model: CubeModel, i: int, k: int)
    requires
        0 <= i < model.squares.len(),
        0 <= k < 4,
    ensures
        model.vertices()[4 * i + k] == corner(model.squares[i], model.ratio, k),
{
}

/// The six indices of square `i` are `4i, 4i + 1, 4i + 2, 4i + 2, 4i + 3, 4i`,
/// as long as these fit in 16 bits, that is for the first 16384 squares.
pub proof fn lemma_square_indices(model: CubeModel, i: int)
    requires
        0 <= i < model.squares.len(),
        i < INDEX_PERIOD,
    ensures
        model.indices().subrange(6 * i, 6 * i + 6) == seq![
            (4 * i) as u16,
            (4 * i + 1) as u16,
            (4 * i + 2) as u16,
            (4 * i + 2) as u16,
            (4 * i + 3) as u16,
            (4 * i) as u16,
        ],
        4 * i + 3 <= u16::MAX,
{
    let got = model.indices().subrange(6 * i, 6 * i + 6);
    let want = seq![
        (4 * i) as u16,
        (4 * i + 1) as u16,
        (4 * i + 2) as u16,
        (4 * i + 2) as u16,
        (4 * i + 3) as u16,
        (4 * i) as u16,
    ];
    assert forall|s: int| 0 <= s < 6 implies got[s] == want[s] by {
        assert((6 * i + s) / 6 == i);
        assert((6 * i + s) % 6 == s);
    }
    assert(got =~= want);
}

/// Beyond that, the index in slot `s` of square `i` is the place of the
/// corner it names, `4i + slot_corner(s)`, modulo 65536.
pub proof fn lemma_square_index_wraps(model: CubeModel, i: int, s: int)
    requires
        0 <= i < model.squares.len(),
        0 <= s < 6,
    ensures
        model.indices()[6 * i + s] == (4 * i + slot_corner(s)) % 0x1_0000,
{
    assert((6 * i + s) / 6 == i);
    assert((6 * i + s) % 6 == s);
}

/// After `n` ticks a growing cursor has gained `n` growth steps, as long as
/// the size stays in range; its position and colour, the squares and the
/// ratio are as before. A plain cursor does not change at all.
pub proof fn lemma_ticks(model: CubeModel, n: nat)
    ensures
        after_ticks(model, n).squares == model.squares,
        after_ticks(model, n).ratio == model.ratio,
        model.cursor is Plain ==> after_ticks(model, n) == model,
        model.cursor matches Cursor::Growing(xy, size, color) ==> size@ + n * GROWTH_STEP
            <= i64::MAX ==> after_ticks(model, n).cursor == Cursor::Growing(
            xy,
            Fixed { raw: (size@ + n * GROWTH_STEP) as i64 },
            color,
        ),
    decreases n,
{
    if n > 0 {
        lemma_ticks(model, (n - 1) as nat);
        assert(n * GROWTH_STEP == (n - 1) * GROWTH_STEP + GROWTH_STEP) by (nonlinear_arith);
        assert((n - 1) * GROWTH_STEP >= 0) by (nonlinear_arith)
            requires
                n >= 1,
        ;
    }
}

/// A whole gesture: under a plain cursor, a press, a pointer move to the
/// window-relative `(x, y)`, `n` ticks and a release place one square. It
/// stands where the pointer went, has the initial size plus `n` growth
/// steps and the colour that the cursor had; the cursor stays there, plain,
/// with the next colour. The size must stay in range.
pub proof fn lemma_gesture(model: CubeModel, x: Fixed, y: Fixed, n: nat, next_color: [Fixed; 3])
    requires
        model.cursor is Plain,
        INITIAL_SIZE + n * GROWTH_STEP <= i64::MAX,
    ensures
        ({
            let place = (device_x(x), device_y(y));
            let pressed = model.start_growing().update_cursor_position(x, y);
            let released = after_ticks(pressed, n).stop_growing(next_color);
            &&& released.squares == model.squares.push(
                Square {
                    pos: place,
                    size: Fixed { raw: (INITIAL_SIZE + n * GROWTH_STEP) as i64 },
                    color: model.cursor.color(),
                },
            )
            &&& released.cursor == Cursor::Plain(place, next_color)
            &&& released.ratio == model.ratio
        }),
{
    lemma_ticks(model.start_growing().update_cursor_position(x, y), n);
}

/// Whether the cursor is growing after a list of events, given whether it
/// was growing before: the last press or release decides.
pub open spec fn growing_after_events(growing: bool, events: Seq<Event>) -> bool
    decreases events.len(),
{
    if events.len() == 0 {
        growing
    } else {
        match events.last() {
            Event::LeftPressed => true,
            Event::LeftReleased => false,
            _ => growing_after_events(growing, events.drop_last()),
        }
    }
}

/// The number of events in a list that complete a square: the releases
/// that find the cursor growing.
pub open spec fn completed_by_events(growing: bool, events: Seq<Event>) -> nat
    decreases events.len(),
{
    if events.len() == 0 {
        0
    } else {
        let before = events.drop_last();
        let one: nat = if events.last() is LeftReleased && growing_after_events(
            growing,
            before,
        ) {
            1
        } else {
            0
        };
        completed_by_events(growing, before) + one
    }
}

/// Whether the list holds a close request or an escape.
pub open spec fn has_stop(events: Seq<Event>) -> bool {
    exists|i: int|
        0 <= i < events.len() && ((#[trigger] events[i]) is CloseRequested || events[i]
            is EscapePressed)
}

/// Whether the list holds a resize or a pointer move.
pub open spec fn has_change_on_screen(events: Seq<Event>) -> bool {
    exists|i: int|
        0 <= i < events.len() && ((#[trigger] events[i]) is Resized || events[i] is MouseMoved)
}

/// Over any list of events, whatever colours are drawn, the list of squares
/// grows by exactly one for each release that finds the cursor growing. The
/// squares that were there stay in place, and the cursor ends up growing
/// exactly if the last press or release was a press.
pub proof fn lemma_events_complete_squares(
    model: LoopModel,
    events: Seq<Event>,
    colors: Seq<[Fixed; 3]>,
)
    ensures
        model.handle_all(events, colors).cube.squares.len() == model.cube.squares.len()
            + completed_by_events(model.cube.cursor is Growing, events),
        model.handle_all(events, colors).cube.squares.take(model.cube.squares.len() as int)
            == model.cube.squares,
        model.handle_all(events, colors).cube.cursor is Growing == growing_after_events(
            model.cube.cursor is Growing,
            events,
        ),
    decreases events.len(),
{
    let count = model.cube.squares.len() as int;
    if events.len() > 0 {
        let before = model.handle_all(events.drop_last(), colors.drop_last());
        lemma_events_complete_squares(model, events.drop_last(), colors.drop_last());
        assert(before.handle(events.last(), colors.last()).cube.squares.take(count)
            =~= before.cube.squares.take(count));
    } else {
        assert(model.cube.squares.take(count) =~= model.cube.squares);
    }
}

/// A batch goes on running exactly if the loop was running and the batch
/// holds neither a close request nor an escape: once stopped, the loop stays
/// stopped.
pub proof fn lemma_stop_is_final(model: LoopModel, events: Seq<Event>, colors: Seq<[Fixed; 3]>)
    ensures
        model.handle_all(events, colors).running == (model.running && !has_stop(events)),
        model.process(events, colors).running == (model.running && !has_stop(events)),
    decreases events.len(),
{
    if events.len() > 0 {
        let before = events.drop_last();
        lemma_stop_is_final(model, before, colors.drop_last());
        if has_stop(before) {
            let i = choose|i: int|
                0 <= i < before.len() && ((#[trigger] before[i]) is CloseRequested || before[i]
                    is EscapePressed);
            assert(events[i] == before[i]);
        }
        if has_stop(events) && !has_stop(before) {
            let i = choose|i: int|
                0 <= i < events.len() && ((#[trigger] events[i]) is CloseRequested || events[i]
                    is EscapePressed);
            if i < before.len() {
                assert(before[i] == events[i]);
            }
        }
        if events.last() is CloseRequested || events.last() is EscapePressed {
            assert(events[events.len() - 1] == events.last());
        }
    }
}

/// After a batch the render buffers are stale exactly if they were stale
/// before or the batch holds a resize or a pointer move. Presses, releases
/// and ticks leave the mark alone.
pub proof fn lemma_batch_marks_dirty(
    model: LoopModel,
    events: Seq<Event>,
    colors: Seq<[Fixed; 3]>,
)
    ensures
        model.handle_all(events, colors).dirty == (model.dirty || has_change_on_screen(events)),
        model.process(events, colors).dirty == (model.dirty || has_change_on_screen(events)),
    decreases events.len(),
{
    if events.len() > 0 {
        let before = events.drop_last();
        lemma_batch_marks_dirty(model, before, colors.drop_last());
        if has_change_on_screen(before) {
            let i = choose|i: int|
                0 <= i < before.len() && ((#[trigger] before[i]) is Resized || before[i]
                    is MouseMoved);
            assert(events[i] == before[i]);
        }
        if has_change_on_screen(events) && !has_change_on_screen(before) {
            let i = choose|i: int|
                0 <= i < events.len() && ((#[trigger] events[i]) is Resized || events[i]
                    is MouseMoved);
            if i < before.len() {
                assert(before[i] == events[i]);
            }
        }
        if events.last() is Resized || events.last() is MouseMoved {
            assert(events[events.len() - 1] == events.last());
        }
    }
}

} // verus!
