use hecto::buffer::Buffer;
use hecto::command::Direction;
use hecto::terminal::{Position, Size};
use hecto::view::View;

fn view_at(x: usize, y: usize, height: usize, width: usize) -> View {
    View {
        buffer: Buffer::default(),
        needs_redraw: true,
        size: Size { height, width },
        caret_position: Position { x, y },
        screen_offset: Position { x: 0, y: 0 },
    }
}

#[test]
fn moves_stay_in_bounds() {
    let bounds = Size { height: 3, width: 3 };
    let directions = [
        Direction::Up,
        Direction::Down,
        Direction::Left,
        Direction::Right,
        Direction::PageUp,
        Direction::PageDown,
        Direction::Home,
        Direction::End,
    ];
    for x in 0..3 {
        for y in 0..3 {
            for direction in directions {
                let mut view = view_at(x, y, 3, 3);
                view.move_point(direction, bounds);
                let caret = view.get_caret_position();
                assert!(caret.x < 3, "x out of bounds after {direction:?}");
                assert!(caret.y < 3, "y out of bounds after {direction:?}");
            }
        }
    }
}

#[test]
fn up_saturates_at_top() {
    let bounds = Size { height: 4, width: 4 };
    let mut view = view_at(2, 0, 4, 4);
    view.move_point(Direction::Up, bounds);
    assert_eq!(view.get_caret_position(), Position { x: 2, y: 0 });
}

#[test]
fn down_clamps_to_last_row() {
    let bounds = Size { height: 4, width: 4 };
    let mut view = view_at(1, 3, 4, 4);
    view.move_point(Direction::Down, bounds);
    assert_eq!(view.get_caret_position(), Position { x: 1, y: 3 });
}

#[test]
fn right_clamps_to_last_column() {
    let bounds = Size { height: 4, width: 4 };
    let mut view = view_at(3, 1, 4, 4);
    view.move_point(Direction::Right, bounds);
    assert_eq!(view.get_caret_position(), Position { x: 3, y: 1 });
}

#[test]
fn home_then_end_reaches_the_extremes() {
    let bounds = Size { height: 7, width: 12 };
    for start_x in [0, 3, 11] {
        let mut view = view_at(start_x, 2, 7, 12);
        view.move_point(Direction::Home, bounds);
        assert_eq!(view.get_caret_position().x, 0);
        view.move_point(Direction::End, bounds);
        assert_eq!(view.get_caret_position().x, 11);
        assert_eq!(view.get_caret_position().y, 2);
    }
}

#[test]
fn page_up_and_page_down_reach_the_extremes() {
    let bounds = Size { height: 9, width: 5 };
    let mut view = view_at(2, 4, 9, 5);
    view.move_point(Direction::PageDown, bounds);
    assert_eq!(view.get_caret_position(), Position { x: 2, y: 8 });
    view.move_point(Direction::PageUp, bounds);
    assert_eq!(view.get_caret_position(), Position { x: 2, y: 0 });
}

#[test]
fn move_sequence_lands_on_expected_cell() {
    let bounds = Size { height: 10, width: 10 };
    let mut view = view_at(5, 5, 10, 10);
    for direction in [
        Direction::Down,
        Direction::Down,
        Direction::Right,
        Direction::Right,
        Direction::PageDown,
    ] {
        view.move_point(direction, bounds);
    }
    assert_eq!(view.get_caret_position(), Position { x: 7, y: 9 });
}

#[test]
fn fresh_bounds_clamp_a_stale_caret() {
    let shrunk = Size { height: 2, width: 2 };
    let mut view = view_at(5, 5, 10, 10);
    view.move_point(Direction::Right, shrunk);
    assert_eq!(view.get_caret_position().x, 1);
}
