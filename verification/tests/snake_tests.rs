use snake_game::game::Direction;
use snake_game::snake::Snake;

fn board_snake(body: Vec<(i32, i32)>, direction: Direction) -> Snake {
    Snake { body, direction, window_size: (800, 600), snake_size: 20 }
}

#[test]
fn advance_moves_head_and_drops_tail() {
    let mut snake = board_snake(vec![(1, 1), (0, 1), (0, 0)], Direction::Right);
    snake.update();
    assert_eq!(snake.body, vec![(2, 1), (1, 1), (0, 1)]);
}

#[test]
fn advance_preserves_body_length() {
    let mut snake = board_snake(vec![(4, 4), (3, 4), (2, 4), (1, 4)], Direction::Down);
    for _ in 0..10 {
        snake.update();
        assert_eq!(snake.body.len(), 4);
    }
}

#[test]
fn wrap_right_edge_to_column_zero() {
    // 800 / 20 = 40 columns; the wrap column itself is 40.
    let mut snake = board_snake(vec![(40, 5), (39, 5)], Direction::Right);
    snake.update();
    assert_eq!(snake.body[0], (0, 5));
}

#[test]
fn wrap_left_edge_to_wrap_column() {
    let mut snake = board_snake(vec![(0, 5), (1, 5)], Direction::Left);
    snake.update();
    assert_eq!(snake.body[0], (40, 5));
}

#[test]
fn wrap_bottom_edge_to_row_zero() {
    // 600 / 20 = 30 rows; the wrap row itself is 30.
    let mut snake = board_snake(vec![(5, 30), (5, 29)], Direction::Down);
    snake.update();
    assert_eq!(snake.body[0], (5, 0));
}

#[test]
fn wrap_top_edge_to_wrap_row() {
    let mut snake = board_snake(vec![(5, 0), (5, 1)], Direction::Up);
    snake.update();
    assert_eq!(snake.body[0], (5, 30));
}

#[test]
fn grow_appends_extrapolated_cell() {
    let mut snake = board_snake(vec![(5, 5), (5, 6)], Direction::Right);
    snake.grow();
    assert_eq!(snake.body, vec![(5, 5), (5, 6), (5, 7)]);
}

#[test]
fn grow_extrapolates_past_the_board_edge() {
    let mut snake = board_snake(vec![(2, 1), (1, 1), (0, 1)], Direction::Right);
    snake.grow();
    assert_eq!(snake.body.len(), 4);
    assert_eq!(snake.body, vec![(2, 1), (1, 1), (0, 1), (-1, 1)]);
}
