use gbi::git::branch::{GitError, GitErrorKind};
use gbi::input::Key;
use gbi::selection::SelectionState;
use gbi::session::{Action, LoopState, Session};

fn three_branches() -> Session {
    let branches = vec!["main".to_string(), "feature-x".to_string(), "bugfix-y".to_string()];
    Session::new(branches, &"feature-x".to_string())
}

#[test]
fn browse_and_check_out_main() {
    let mut s = three_branches();
    assert_eq!(s.selection.cursor_index(), 1);
    assert_eq!(s.selection.current_index(), Some(1));
    assert_eq!(s.handle_key(Key::Char('j')), Action::Nothing);
    assert_eq!(s.selection.cursor_index(), 2);
    s.handle_key(Key::Char('k'));
    s.handle_key(Key::Char('k'));
    assert_eq!(s.selection.cursor_index(), 0);
    let action = s.handle_key(Key::Enter);
    assert_eq!(action, Action::Checkout { index: 0, name: "main".to_string() });
    assert_eq!(s.selection.current_index(), Some(1));
    s.checkout_finished(0, &Ok(()));
    assert_eq!(s.selection.current_index(), Some(0));
    assert!(s.is_running());
}

#[test]
fn enter_on_empty_list_does_nothing() {
    let mut s = Session::new(Vec::new(), &"main".to_string());
    assert_eq!(s.handle_key(Key::Enter), Action::Nothing);
    assert_eq!(s.selection.current_index(), None);
    assert_eq!(s.selection.cursor_index(), 0);
    assert!(s.is_running());
}

#[test]
fn failed_checkout_changes_nothing() {
    let mut s = three_branches();
    s.handle_key(Key::Up);
    let action = s.handle_key(Key::Enter);
    assert_eq!(action, Action::Checkout { index: 0, name: "main".to_string() });
    let failure = GitError::new(GitErrorKind::CheckoutConflict, git2::Error::from_str("conflict"));
    s.checkout_finished(0, &Err(failure));
    assert_eq!(s.selection.current_index(), Some(1));
    assert_eq!(s.selection.cursor_index(), 0);
    assert_eq!(s.status, LoopState::Running);
}

#[test]
fn quit_from_any_row_exits() {
    for moves in 0..4 {
        let mut s = three_branches();
        for _ in 0..moves {
            s.handle_key(Key::Down);
        }
        let cursor = s.selection.cursor_index();
        assert_eq!(s.handle_key(Key::Char('q')), Action::Exit);
        assert_eq!(s.status, LoopState::Exiting);
        assert!(!s.is_running());
        assert_eq!(s.selection.cursor_index(), cursor);
    }
}

#[test]
fn unknown_key_is_ignored() {
    let mut s = three_branches();
    assert_eq!(s.handle_key(Key::Other), Action::Nothing);
    assert_eq!(s.handle_key(Key::Char('x')), Action::Nothing);
    assert_eq!(s.selection.cursor_index(), 1);
    assert!(s.is_running());
}

#[test]
fn session_without_current_branch() {
    let selection = SelectionState::with_current_index(vec!["a".to_string(), "b".to_string()], None);
    let mut s = Session::from_selection(selection);
    assert!(s.is_running());
    assert_eq!(s.selection.current_index(), None);
    assert_eq!(s.selection.cursor_index(), 0);
    assert_eq!(s.handle_key(Key::Up), Action::Nothing);
    assert_eq!(s.selection.cursor_index(), 0);
    s.handle_key(Key::Down);
    s.handle_key(Key::Down);
    assert_eq!(s.selection.cursor_index(), 1);
    assert!(s.is_running());
}
