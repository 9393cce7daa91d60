use control_sim::menu::{can_move_selection, centered_percentages, move_selection};
use control_sim::Key;

#[test]
fn down_goes_to_the_next_row_and_wraps() {
    assert_eq!(move_selection(None, Key::Down, 3), Some(0));
    assert_eq!(move_selection(Some(0), Key::Down, 3), Some(1));
    assert_eq!(move_selection(Some(1), Key::Down, 3), Some(2));
    assert_eq!(move_selection(Some(2), Key::Down, 3), Some(0));
}

#[test]
fn up_goes_to_the_row_before_and_wraps() {
    assert_eq!(move_selection(None, Key::Up, 3), Some(0));
    assert_eq!(move_selection(Some(2), Key::Up, 3), Some(1));
    assert_eq!(move_selection(Some(1), Key::Up, 3), Some(0));
    assert_eq!(move_selection(Some(0), Key::Up, 3), Some(2));
}

#[test]
fn moves_in_an_empty_list_go_to_the_first_row() {
    assert_eq!(move_selection(None, Key::Down, 0), Some(0));
    assert_eq!(move_selection(None, Key::Up, 0), Some(0));
    assert_eq!(move_selection(Some(0), Key::Down, 0), Some(0));
}

#[test]
fn other_keys_leave_the_highlight() {
    assert_eq!(move_selection(Some(1), Key::Enter, 3), Some(1));
    assert_eq!(move_selection(None, Key::Char('x'), 3), None);
}

#[test]
fn centred_part_has_equal_margins() {
    assert_eq!(centered_percentages(25), (37, 25, 37));
    assert_eq!(centered_percentages(50), (25, 50, 25));
    assert_eq!(centered_percentages(100), (0, 100, 0));
    assert_eq!(centered_percentages(0), (50, 0, 50));
}

#[test]
fn a_move_needs_a_row_to_go_to() {
    assert!(can_move_selection(Some(0), Key::Up, 1));
    assert!(!can_move_selection(Some(0), Key::Up, 0));
    assert!(can_move_selection(None, Key::Up, 0));
    assert!(can_move_selection(Some(3), Key::Up, 0));
    assert!(can_move_selection(Some(7), Key::Down, 0));
    assert!(!can_move_selection(Some(usize::MAX), Key::Down, 3));
    assert!(can_move_selection(Some(usize::MAX), Key::Enter, 3));
    assert!(can_move_selection(Some(0), Key::Esc, 0));
}
