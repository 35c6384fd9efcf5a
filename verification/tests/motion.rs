use riablo::input::Direction;
use riablo::motion::AnimationRow;
use riablo::motion::Position;
use riablo::motion::get_scaled_resolution;
use riablo::motion::select_animation_row;

fn held(up: bool, down: bool, left: bool, right: bool) -> Direction {
    Direction { up, down, left, right }
}

#[test]
fn origin_is_the_default_position() {
    let p = Position::default();
    assert_eq!(p, Position { x: 0, y: 0 });
}

#[test]
fn up_alone_decreases_the_vertical_coordinate_by_the_speed() {
    let mut p = Position::default();
    p.advance_position(&held(true, false, false, false), 5);
    assert_eq!(p.y, -5);
    assert_eq!(p.x, 0);
}

#[test]
fn down_and_right_increase_their_axes() {
    let mut p = Position { x: 10, y: -3 };
    p.advance_position(&held(false, true, false, true), 5);
    assert_eq!(p, Position { x: 15, y: 2 });
}

#[test]
fn left_decreases_the_horizontal_coordinate() {
    let mut p = Position::default();
    p.advance_position(&held(false, false, true, false), 7);
    assert_eq!(p, Position { x: -7, y: 0 });
}

#[test]
fn opposing_vertical_holds_cancel_exactly() {
    let mut p = Position { x: 2, y: 9 };
    p.advance_position(&held(true, true, false, false), 5);
    assert_eq!(p, Position { x: 2, y: 9 });
}

#[test]
fn all_four_holds_cancel_on_both_axes() {
    let mut p = Position { x: -4, y: 4 };
    p.advance_position(&held(true, true, true, true), 5);
    assert_eq!(p, Position { x: -4, y: 4 });
}

#[test]
fn no_holds_means_no_movement() {
    let mut p = Position { x: 1, y: 1 };
    p.advance_position(&held(false, false, false, false), 5);
    assert_eq!(p, Position { x: 1, y: 1 });
}

#[test]
fn up_and_right_resolve_to_the_up_row() {
    let row = select_animation_row(&held(true, false, false, true));
    assert_eq!(row, AnimationRow::Up);
}

#[test]
fn row_precedence_is_up_then_left_then_right() {
    assert_eq!(select_animation_row(&held(true, true, true, true)), AnimationRow::Up);
    assert_eq!(select_animation_row(&held(false, true, true, true)), AnimationRow::Left);
    assert_eq!(select_animation_row(&held(false, true, false, true)), AnimationRow::Right);
}

#[test]
fn down_alone_and_nothing_held_select_the_idle_row() {
    assert_eq!(select_animation_row(&held(false, true, false, false)), AnimationRow::Idle);
    assert_eq!(select_animation_row(&held(false, false, false, false)), AnimationRow::Idle);
}

#[test]
fn row_indices_give_quarter_sheet_offsets() {
    assert_eq!(AnimationRow::Idle.row_index(), 0);
    assert_eq!(AnimationRow::Up.row_index(), 1);
    assert_eq!(AnimationRow::Left.row_index(), 2);
    assert_eq!(AnimationRow::Right.row_index(), 3);
    assert_eq!(AnimationRow::Up.row_index() as f32 * 0.25, 0.25);
    assert_eq!(AnimationRow::Left.row_index() as f32 * 0.25, 0.5);
    assert_eq!(AnimationRow::Right.row_index() as f32 * 0.25, 0.75);
    assert_eq!(AnimationRow::Idle.row_index() as f32 * 0.25, 0.0);
}

#[test]
fn scale_factors_round_each_axis_ratio_to_the_nearest_integer() {
    assert_eq!(get_scaled_resolution(1920, 1080), (2, 2));
    assert_eq!(get_scaled_resolution(800, 600), (1, 1));
    // Halves round up: 1200/800 and 900/600 are both exactly 1.5.
    assert_eq!(get_scaled_resolution(1200, 900), (2, 2));
    // Ratios below one half round down to zero.
    assert_eq!(get_scaled_resolution(100, 75), (0, 0));
}
