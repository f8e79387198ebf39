use snake_game::utils::has_duplicate_coordinates;

#[test]
fn detects_duplicate_cells() {
    assert!(has_duplicate_coordinates(&vec![(0, 0), (1, 0), (0, 0)]));
}

#[test]
fn detects_nonadjacent_duplicate() {
    assert!(has_duplicate_coordinates(&vec![(3, 4), (3, 5), (2, 2), (3, 4)]));
}

#[test]
fn distinct_cells_have_no_duplicate() {
    assert!(!has_duplicate_coordinates(&vec![(0, 0), (1, 0), (2, 0), (2, 1)]));
}

#[test]
fn empty_body_has_no_duplicate() {
    assert!(!has_duplicate_coordinates(&vec![]));
}

#[test]
fn single_cell_has_no_duplicate() {
    assert!(!has_duplicate_coordinates(&vec![(7, -3)]));
}

#[test]
fn mirrored_coordinates_are_distinct_cells() {
    assert!(!has_duplicate_coordinates(&vec![(1, 2), (2, 1)]));
}
