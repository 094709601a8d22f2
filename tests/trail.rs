use snake_trail::direction::Direction;
use snake_trail::geometry::{build_trail, get_rect, Rect};
use snake_trail::motion::{App, HALF_THICKNESS, SPEED, UNITS_PER_PIXEL};

const PX: i64 = UNITS_PER_PIXEL;

#[test]
fn starts_at_fifty_fifty_facing_right() {
    let app = App::new();
    assert_eq!(app.position(), (50 * PX, 50 * PX));
    assert_eq!(app.direction(), Direction::Right);
    assert!(app.bends().is_empty());
    assert!(app.trail().is_empty());
}

#[test]
fn advance_turn_advance_render() {
    let mut app = App::new();
    app.advance(1_000_000);
    assert_eq!(app.position(), (150 * PX, 50 * PX));
    app.turn(Direction::Down);
    assert_eq!(app.bends(), vec![50 * PX]);
    assert_eq!(app.direction(), Direction::Down);
    app.advance(500_000);
    assert_eq!(app.position(), (150 * PX, 100 * PX));
    let rects = app.trail();
    assert_eq!(rects.len(), 1);
    assert_eq!(
        rects[0],
        Rect { x0: 146 * PX, y0: 104 * PX, x1: 154 * PX, y1: 46 * PX }
    );
}

#[test]
fn turn_to_same_direction_records_nothing() {
    let mut app = App::new();
    app.turn(Direction::Right);
    assert!(app.bends().is_empty());
    assert_eq!(app.direction(), Direction::Right);
}

#[test]
fn turn_to_opposite_direction_records_nothing() {
    let mut app = App::new();
    app.advance(10_000);
    app.turn(Direction::Left);
    assert!(app.bends().is_empty());
    assert_eq!(app.direction(), Direction::Right);
    assert_eq!(app.position(), (51 * PX, 50 * PX));
}

#[test]
fn repeated_turn_records_once() {
    let mut app = App::new();
    app.turn(Direction::Up);
    app.turn(Direction::Up);
    app.turn(Direction::Down);
    assert_eq!(app.bends(), vec![50 * PX]);
    assert_eq!(app.direction(), Direction::Up);
}

#[test]
fn three_perpendicular_turns() {
    let mut app = App::new();
    app.advance(1_000_000); // (150, 50)
    app.turn(Direction::Down);
    app.advance(1_000_000); // (150, 150)
    app.turn(Direction::Left);
    app.advance(500_000); // (100, 150)
    app.turn(Direction::Up);
    app.advance(200_000); // (100, 130)
    assert_eq!(app.bends(), vec![50 * PX, 150 * PX, 150 * PX]);
    assert_eq!(app.position(), (100 * PX, 130 * PX));
    let rects = app.trail();
    assert_eq!(rects.len(), 3);
    // Most recent segment first: (100,130) up from (100,150).
    assert_eq!(rects[0], Rect { x0: 96 * PX, y0: 126 * PX, x1: 104 * PX, y1: 154 * PX });
    // Then (100,150) back to (150,150).
    assert_eq!(rects[1], Rect { x0: 96 * PX, y0: 146 * PX, x1: 154 * PX, y1: 154 * PX });
    // Then (150,150) back to (150,50).
    assert_eq!(rects[2], Rect { x0: 146 * PX, y0: 154 * PX, x1: 154 * PX, y1: 46 * PX });
}

#[test]
fn turn_from_horizontal_records_y() {
    let mut app = App::new();
    app.advance(300_000);
    app.turn(Direction::Down);
    assert_eq!(app.bends(), vec![50 * PX]);
}

#[test]
fn turn_from_vertical_records_x() {
    let mut app = App::new();
    app.advance(300_000); // (80, 50)
    app.turn(Direction::Up);
    app.advance(100_000); // (80, 40)
    app.turn(Direction::Left);
    assert_eq!(app.bends(), vec![50 * PX, 80 * PX]);
    assert_eq!(app.direction(), Direction::Left);
}

#[test]
fn advance_moves_along_each_direction() {
    let mut app = App::new();
    app.advance(1);
    assert_eq!(app.position(), (50 * PX + SPEED, 50 * PX));
    app.turn(Direction::Up);
    app.advance(2);
    assert_eq!(app.position(), (50 * PX + SPEED, 50 * PX - 2 * SPEED));
    app.turn(Direction::Left);
    app.advance(3);
    assert_eq!(app.position(), (50 * PX - 2 * SPEED, 50 * PX - 2 * SPEED));
    app.turn(Direction::Down);
    app.advance(4);
    assert_eq!(app.position(), (50 * PX - 2 * SPEED, 50 * PX + 2 * SPEED));
}

#[test]
fn repeated_advances_keep_other_axis() {
    let mut app = App::new();
    app.turn(Direction::Down);
    let mut last = app.position();
    for _ in 0..5 {
        app.advance(250_000);
        let now = app.position();
        assert_eq!(now.0, last.0);
        assert!(now.1 > last.1);
        last = now;
    }
    assert_eq!(last, (50 * PX, 175 * PX));
}

#[test]
fn zero_tick_changes_nothing() {
    let mut app = App::new();
    app.advance(0);
    assert_eq!(app.position(), (50 * PX, 50 * PX));
}

#[test]
fn tick_leaving_the_field_changes_nothing() {
    let mut app = App::new();
    app.advance(u64::MAX);
    assert_eq!(app.position(), (50 * PX, 50 * PX));
    app.advance(10_000_000_000_000_000);
    assert_eq!(app.position(), (50 * PX, 50 * PX));
    app.advance(9_999_999_999_500_000);
    assert_eq!(app.position(), (1_000_000_000_000_000_000, 50 * PX));
}

#[test]
fn trail_length_follows_bends() {
    let mut app = App::new();
    let requests = [
        Direction::Up,
        Direction::Up,
        Direction::Right,
        Direction::Left,
        Direction::Down,
        Direction::Left,
    ];
    for d in requests {
        app.advance(10_000);
        app.turn(d);
        assert_eq!(app.trail().len(), app.bends().len());
    }
    assert_eq!(app.bends().len(), 4);
}

#[test]
fn get_rect_forward_corners() {
    let r = get_rect((10, 20), (30, 20), 4);
    assert_eq!(r, Rect { x0: 6, y0: 16, x1: 34, y1: 24 });
}

#[test]
fn get_rect_backward_corners() {
    let r = get_rect((30, 50), (10, 20), 4);
    assert_eq!(r, Rect { x0: 34, y0: 54, x1: 6, y1: 16 });
}

#[test]
fn get_rect_equal_corners() {
    let r = get_rect((7, 7), (7, 7), 2);
    assert_eq!(r, Rect { x0: 5, y0: 5, x1: 9, y1: 9 });
}

#[test]
fn build_trail_without_bends_is_empty() {
    assert!(build_trail(0, 0, true, &vec![], HALF_THICKNESS).is_empty());
}

#[test]
fn build_trail_alternates_axes() {
    let rects = build_trail(0, 0, false, &vec![10, 20], 1);
    // Vertical cursor at (0,0): previous corner (0,20), then (10,20).
    assert_eq!(rects, vec![
        Rect { x0: -1, y0: -1, x1: 1, y1: 21 },
        Rect { x0: -1, y0: 19, x1: 11, y1: 21 },
    ]);
}

#[test]
fn direction_axes() {
    assert!(Direction::Left.is_horizontal());
    assert!(Direction::Right.is_horizontal());
    assert!(!Direction::Up.is_horizontal());
    assert!(!Direction::Down.is_horizontal());
    assert!(Direction::Left.is_perpendicular(Direction::Down));
    assert!(!Direction::Left.is_perpendicular(Direction::Right));
    assert!(!Direction::Up.is_perpendicular(Direction::Up));
}
