use gbi::selection::{Direction, SelectionState};

fn names(list: &[&str]) -> Vec<String> {
    list.iter().map(|s| s.to_string()).collect()
}

#[test]
fn new_finds_current_branch() {
    let s = SelectionState::new(names(&["main", "feature-x", "bugfix-y"]), &"feature-x".to_string());
    assert_eq!(s.current_index(), Some(1));
    assert_eq!(s.cursor_index(), 1);
    assert_eq!(s.len(), 3);
}

#[test]
fn new_without_current_branch_starts_at_top() {
    let s = SelectionState::new(names(&["main", "dev"]), &"HEAD".to_string());
    assert_eq!(s.current_index(), None);
    assert_eq!(s.cursor_index(), 0);
}

#[test]
fn new_takes_first_of_duplicate_names() {
    let s = SelectionState::new(names(&["a", "b", "b"]), &"b".to_string());
    assert_eq!(s.current_index(), Some(1));
}

#[test]
fn up_at_top_stays() {
    let mut s = SelectionState::with_current_index(names(&["a", "b", "c"]), Some(0));
    s.move_cursor(Direction::Up);
    assert_eq!(s.cursor_index(), 0);
}

#[test]
fn down_at_bottom_stays() {
    let mut s = SelectionState::with_current_index(names(&["a", "b", "c"]), Some(2));
    s.move_cursor(Direction::Down);
    assert_eq!(s.cursor_index(), 2);
}

#[test]
fn moves_on_empty_list_do_nothing() {
    let mut s = SelectionState::new(Vec::new(), &"main".to_string());
    s.move_cursor(Direction::Up);
    assert_eq!(s.cursor_index(), 0);
    s.move_cursor(Direction::Down);
    assert_eq!(s.cursor_index(), 0);
    assert_eq!(s.selected_branch(), None);
}

#[test]
fn cursor_stays_in_range_over_many_moves() {
    let mut s = SelectionState::with_current_index(names(&["a", "b", "c", "d"]), None);
    let steps = [
        Direction::Down, Direction::Down, Direction::Down, Direction::Down, Direction::Down,
        Direction::Up, Direction::Up, Direction::Up, Direction::Up, Direction::Up, Direction::Up,
        Direction::Down,
    ];
    for step in steps {
        s.move_cursor(step);
        assert!(s.cursor_index() < 4);
    }
    assert_eq!(s.cursor_index(), 1);
}

#[test]
fn fresh_state_selects_current_branch() {
    let s = SelectionState::with_current_index(names(&["main", "feature-x", "bugfix-y"]), Some(2));
    assert_eq!(s.selected_branch(), Some("bugfix-y".to_string()));
}

#[test]
fn mark_checked_out_sets_current_index() {
    let mut s = SelectionState::with_current_index(names(&["main", "feature-x"]), Some(1));
    s.mark_checked_out(0);
    assert_eq!(s.current_index(), Some(0));
    assert_eq!(s.cursor_index(), 1);
}
