use pseudocube::cursor::Square;
use pseudocube::fixed::Fixed;
use pseudocube::mesh::{half_extents, square_indices, square_vertices, Vertex};

fn fx(raw: i64) -> Fixed {
    Fixed::from_raw(raw)
}

const RED: [Fixed; 3] = [Fixed { raw: 1_000_000 }, Fixed { raw: 0 }, Fixed { raw: 0 }];

#[test]
fn half_extents_in_a_wide_viewport() {
    assert_eq!(half_extents(fx(1_000_000), fx(2_000_000)), (fx(250_000), fx(500_000)));
}

#[test]
fn half_extents_in_a_tall_viewport() {
    assert_eq!(half_extents(fx(1_000_000), fx(500_000)), (fx(500_000), fx(250_000)));
}

#[test]
fn half_extents_in_a_square_viewport() {
    assert_eq!(half_extents(fx(1_000_000), fx(1_000_000)), (fx(500_000), fx(500_000)));
}

#[test]
fn half_extents_just_above_one_divide() {
    assert_eq!(half_extents(fx(2_000_000), fx(1_000_001)), (fx(999_999), fx(1_000_000)));
}

#[test]
fn half_extents_round_toward_zero() {
    assert_eq!(half_extents(fx(1), fx(1_000_000)), (fx(0), fx(0)));
    assert_eq!(half_extents(fx(3), fx(1_000_000)), (fx(1), fx(1)));
    assert_eq!(half_extents(fx(1_000_000), fx(3_000_000)), (fx(166_666), fx(500_000)));
}

#[test]
fn half_extents_of_a_negative_size() {
    assert_eq!(half_extents(fx(-1_000_000), fx(2_000_000)), (fx(-250_000), fx(-500_000)));
}

#[test]
fn half_extents_under_a_zero_or_negative_ratio() {
    assert_eq!(half_extents(fx(1_000_000), fx(0)), (fx(500_000), fx(0)));
    assert_eq!(half_extents(fx(1_000_000), fx(-2_000_000)), (fx(500_000), fx(-1_000_000)));
}

#[test]
fn half_extents_under_a_saturated_ratio() {
    assert_eq!(half_extents(fx(1_000_000), fx(i64::MAX)), (fx(0), fx(500_000)));
}

#[test]
fn square_vertices_come_in_corner_order() {
    let sq = Square { pos: (fx(100_000), fx(-200_000)), size: fx(1_000_000), color: RED };
    let vs = square_vertices(sq, fx(2_000_000));
    assert_eq!(
        vs[0],
        Vertex { pos: [fx(350_000), fx(-700_000)], uv: [fx(1_000_000), fx(1_000_000)], color: RED }
    );
    assert_eq!(
        vs[1],
        Vertex { pos: [fx(-150_000), fx(-700_000)], uv: [fx(0), fx(1_000_000)], color: RED }
    );
    assert_eq!(
        vs[2],
        Vertex { pos: [fx(-150_000), fx(300_000)], uv: [fx(0), fx(0)], color: RED }
    );
    assert_eq!(
        vs[3],
        Vertex { pos: [fx(350_000), fx(300_000)], uv: [fx(1_000_000), fx(0)], color: RED }
    );
}

#[test]
fn square_vertices_saturate_at_the_edge_of_the_range() {
    let sq = Square { pos: (fx(i64::MAX), fx(i64::MIN)), size: fx(2_000_000), color: RED };
    let vs = square_vertices(sq, fx(1_000_000));
    assert_eq!(vs[0].pos, [fx(i64::MAX), fx(i64::MIN)]);
    assert_eq!(vs[1].pos, [fx(i64::MAX - 1_000_000), fx(i64::MIN)]);
    assert_eq!(vs[2].pos, [fx(i64::MAX - 1_000_000), fx(i64::MIN + 1_000_000)]);
    assert_eq!(vs[3].pos, [fx(i64::MAX), fx(i64::MIN + 1_000_000)]);
}

#[test]
fn square_indices_of_the_first_squares() {
    assert_eq!(square_indices(0), [0, 1, 2, 2, 3, 0]);
    assert_eq!(square_indices(1), [4, 5, 6, 6, 7, 4]);
    assert_eq!(square_indices(2), [8, 9, 10, 10, 11, 8]);
    assert_eq!(square_indices(100), [400, 401, 402, 402, 403, 400]);
}

#[test]
fn square_indices_up_to_the_last_that_fits() {
    assert_eq!(square_indices(16383), [65532, 65533, 65534, 65534, 65535, 65532]);
}

#[test]
fn square_indices_wrap_after_16384_squares() {
    assert_eq!(square_indices(16384), [0, 1, 2, 2, 3, 0]);
    assert_eq!(square_indices(16385), [4, 5, 6, 6, 7, 4]);
    assert_eq!(square_indices(32768 + 7), [28, 29, 30, 30, 31, 28]);
}
