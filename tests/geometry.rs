use snake_draw::{Coord, Direction, Position, BLOCK_SIZE, SUBPIXELS_PER_PIXEL};

fn pixels(t: i64) -> f64 {
    t as f64 / SUBPIXELS_PER_PIXEL as f64
}

#[test]
fn round_trip_through_pixels() {
    for &(c, r) in &[(0u32, 0u32), (1, 0), (0, 1), (2, 3), (17, 250), (u32::MAX, u32::MAX)] {
        let p = Position(c, r);
        assert_eq!(p.to_coord().to_position(), p);
    }
}

#[test]
fn opposite_twice_is_identity() {
    for d in [Direction::Up, Direction::Down, Direction::Left, Direction::Right] {
        assert_eq!(d.opposite().opposite(), d);
        assert_ne!(d.opposite(), d);
    }
    assert_eq!(Direction::Up.opposite(), Direction::Down);
    assert_eq!(Direction::Down.opposite(), Direction::Up);
    assert_eq!(Direction::Left.opposite(), Direction::Right);
    assert_eq!(Direction::Right.opposite(), Direction::Left);
}

#[test]
fn shifted_by_mixed_signs() {
    assert_eq!(Position(3, 4).shifted_by(1, -2), Position(4, 2));
}

#[test]
fn to_coord_values() {
    assert_eq!(Position(0, 0).to_coord(), Coord(0, 0));
    let c = Position(2, 3).to_coord();
    assert_eq!(c, Coord(240, 360));
    assert_eq!(pixels(c.0), 24.0);
    assert_eq!(pixels(c.1), 36.0);
    assert_eq!(pixels(BLOCK_SIZE), 12.0);
}

#[test]
fn shifted_below_zero_stops_at_zero() {
    assert_eq!(Position(0, 0).shifted_by(-1, 0), Position(0, 0));
    assert_eq!(Position(5, 2).shifted_by(-10, -3), Position(0, 0));
    assert_eq!(Position(5, 2).shifted_by(i32::MIN, 0), Position(0, 2));
}

#[test]
fn shifted_past_max_stops_at_max() {
    assert_eq!(Position(u32::MAX, 7).shifted_by(1, 0), Position(u32::MAX, 7));
    assert_eq!(Position(u32::MAX - 1, 0).shifted_by(i32::MAX, i32::MAX), Position(u32::MAX, i32::MAX as u32));
}

#[test]
fn to_position_truncates() {
    assert_eq!(Coord(119, 121).to_position(), Position(0, 1));
    assert_eq!(Coord(245, 359).to_position(), Position(2, 2));
    assert_eq!(Coord::new(240, 360).to_position(), Position::new(2, 3));
}

#[test]
fn to_position_clamps() {
    assert_eq!(Coord(-1, -1000).to_position(), Position(0, 0));
    assert_eq!(Coord(i64::MAX, 120).to_position(), Position(u32::MAX, 1));
}

#[test]
fn as_array_keeps_order() {
    assert_eq!(Coord(7, -3).as_array(), [7, -3]);
    assert_eq!(Position(1, 2).to_coord().as_array(), [120, 240]);
}
