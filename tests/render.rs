use gbi::render::{render_plan, FOOTER_INSTRUCTION};
use gbi::selection::{Direction, SelectionState};

#[test]
fn rows_mark_current_branch_and_highlight_cursor() {
    let branches = vec!["main".to_string(), "feature-x".to_string(), "bugfix-y".to_string()];
    let mut s = SelectionState::new(branches, &"feature-x".to_string());
    s.move_cursor(Direction::Down);
    let plan = render_plan(&s);
    assert_eq!(plan.rows, vec!["main".to_string(), "feature-x *".to_string(), "bugfix-y".to_string()]);
    assert_eq!(plan.highlighted, Some(2));
    assert_eq!(plan.footer, "Use ↓↑ or jk to move, ENTER to select, q to quit");
    assert_eq!(plan.footer, FOOTER_INSTRUCTION);
}

#[test]
fn no_marker_without_current_branch() {
    let s = SelectionState::new(vec!["a".to_string(), "b".to_string()], &"HEAD".to_string());
    let plan = render_plan(&s);
    assert_eq!(plan.rows, vec!["a".to_string(), "b".to_string()]);
    assert_eq!(plan.highlighted, Some(0));
}

#[test]
fn empty_list_renders_no_rows() {
    let s = SelectionState::new(Vec::new(), &"main".to_string());
    let plan = render_plan(&s);
    assert!(plan.rows.is_empty());
    assert_eq!(plan.highlighted, None);
    assert_eq!(s.selected_branch(), None);
}
