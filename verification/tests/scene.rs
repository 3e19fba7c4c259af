use pseudocube::pseudocube::white;
use pseudocube::{Cursor, Event, Fixed, FrameLoop, Pseudocube, Square, Vertex};

#[test]
fn the_seeded_scene_draws_one_white_square() {
    let zero = Fixed::from_int(0);
    let one = Fixed::from_int(1);
    let mut cube = Pseudocube::new();
    cube.add_square(zero, zero, one, white());
    let frame = FrameLoop::new(cube, 800, 800);
    assert_eq!(
        frame.cube().squares().as_slice(),
        &[Square { pos: (zero, zero), size: one, color: white() }]
    );
    let (vertices, indices) = frame.cube().get_vertices_indices();
    let half = Fixed::from_raw(500_000);
    let minus_half = Fixed::from_raw(-500_000);
    assert_eq!(
        vertices,
        vec![
            Vertex { pos: [half, minus_half], uv: [one, one], color: white() },
            Vertex { pos: [minus_half, minus_half], uv: [zero, one], color: white() },
            Vertex { pos: [minus_half, half], uv: [zero, zero], color: white() },
            Vertex { pos: [half, half], uv: [one, zero], color: white() },
        ]
    );
    assert_eq!(indices, vec![0, 1, 2, 2, 3, 0]);
}

#[test]
fn the_start_cursor_commits_its_corner_square_on_the_first_release() {
    let one = Fixed::from_int(1);
    let mut frame = FrameLoop::new(Pseudocube::new(), 800, 800);
    frame.process_events(&vec![Event::LeftReleased]);
    assert_eq!(
        frame.cube().squares().as_slice(),
        &[Square { pos: (one, one), size: one, color: white() }]
    );
    assert!(matches!(frame.cube().cursor(), Cursor::Plain(xy, _) if xy == (one, one)));
}

#[test]
fn the_start_cursor_grows_with_every_batch() {
    let one = Fixed::from_int(1);
    let mut frame = FrameLoop::new(Pseudocube::new(), 800, 800);
    frame.process_events(&vec![Event::Other]);
    frame.process_events(&vec![Event::Other, Event::Other]);
    assert_eq!(
        frame.cube().cursor(),
        Cursor::Growing((one, one), Fixed::from_raw(1_020_000), white())
    );
}
