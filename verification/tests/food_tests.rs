use snake_game::food::Food;

#[test]
fn new_food_on_single_cell_board_sits_at_origin() {
    // One column, one row: the only cell the random draw can pick is (0, 0).
    let food = Food::new(20, (20, 20));
    assert_eq!((food.x_pos, food.y_pos), (0, 0));
    assert_eq!(food.size, 20);
    assert_eq!(food.window_size, (20, 20));
}

#[test]
fn new_food_lies_on_a_whole_cell_of_the_board() {
    for _ in 0..50 {
        let food = Food::new(15, (800, 600));
        assert_eq!(food.x_pos % 15, 0);
        assert!(food.x_pos / 15 < 800 / 15);
        assert_eq!(food.y_pos % 15, 0);
        assert!(food.y_pos / 15 < 600 / 15);
    }
}

#[test]
fn relocated_food_lies_on_a_whole_cell_of_the_board() {
    let mut food = Food::new(20, (800, 600));
    for _ in 0..50 {
        food.update();
        assert_eq!(food.x_pos % 20, 0);
        assert!(food.x_pos / 20 < 40);
        assert_eq!(food.y_pos % 20, 0);
        assert!(food.y_pos / 20 < 30);
    }
}
