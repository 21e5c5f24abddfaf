use gbi::input::{interpret, Command, Key};
use gbi::selection::Direction;

#[test]
fn keys_map_to_commands() {
    assert_eq!(interpret(Key::Char('q')), Command::Quit);
    assert_eq!(interpret(Key::Char('k')), Command::Move(Direction::Up));
    assert_eq!(interpret(Key::Up), Command::Move(Direction::Up));
    assert_eq!(interpret(Key::Char('j')), Command::Move(Direction::Down));
    assert_eq!(interpret(Key::Down), Command::Move(Direction::Down));
    assert_eq!(interpret(Key::Enter), Command::Confirm);
}

#[test]
fn other_keys_are_ignored() {
    assert_eq!(interpret(Key::Char('x')), Command::Ignore);
    assert_eq!(interpret(Key::Char('Q')), Command::Ignore);
    assert_eq!(interpret(Key::Other), Command::Ignore);
}
