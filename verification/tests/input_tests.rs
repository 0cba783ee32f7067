use game_of_life::grid::{Pattern, CELL_COUNT};
use game_of_life::input::{translate_to_grid_coordinates, InputEvent};

#[test]
fn click_on_cell_maps_to_grid_coordinates() {
    // mouse coordinates are 1-based and the grid is padded by one; each
    // cell is two screen columns wide
    let coords = translate_to_grid_coordinates(2, 2).unwrap();
    assert_eq!(coords.x, 0);
    assert_eq!(coords.y, 0);
    let coords = translate_to_grid_coordinates(4, 5).unwrap();
    assert_eq!(coords.x, 1);
    assert_eq!(coords.y, 3);
    let coords = translate_to_grid_coordinates(76, 31).unwrap();
    assert_eq!(coords.x, 37);
    assert_eq!(coords.y, 29);
}

#[test]
fn click_between_cells_is_rejected() {
    assert!(translate_to_grid_coordinates(3, 2).is_none());
    assert!(translate_to_grid_coordinates(5, 10).is_none());
}

#[test]
fn click_beyond_grid_is_rejected() {
    // one column right of the last cell, one row below the last row
    assert!(translate_to_grid_coordinates(78, 2).is_none());
    assert!(translate_to_grid_coordinates(2, 32).is_none());
    assert!(translate_to_grid_coordinates(200, 200).is_none());
}

#[test]
fn reset_commands_validate_their_pattern() {
    assert!(InputEvent::Reset(Pattern::Random(10)).is_valid());
    assert!(InputEvent::Reset(Pattern::GosperGliderGun).is_valid());
    assert!(!InputEvent::Reset(Pattern::Random(CELL_COUNT + 1)).is_valid());
    assert!(InputEvent::TogglePause.is_valid());
    assert!(InputEvent::Quit.is_valid());
}
