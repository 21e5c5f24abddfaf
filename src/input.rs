//! The meaning of a key press.
use vstd::prelude::*;
use crate::selection::Direction;

verus! {

/// A key press, as far as the browser distinguishes keys.
#[derive(Clone, Copy, Debug, PartialEq, Eq, Structural)]
pub enum Key {
    Char(char),
    Up,
    Down,
    Enter,
    Other,
}

/// What a key press asks for.
#[derive(Clone, Copy, Debug, PartialEq, Eq, Structural)]
pub enum Command {
    Quit,
    Move(Direction),
    Confirm,
    Ignore,
}

/// `q` quits; `Up`/`k` and `Down`/`j` move the cursor; `Enter` confirms the
/// highlighted branch; every other key is ignored.
pub open spec fn command_of(key: Key) -> Command {
    match key {
        Key::Char(c) => if c == 'q' {
            Command::Quit
        } else if c == 'k' {
            Command::Move(Direction::Up)
        } else if c == 'j' {
            Command::Move(Direction::Down)
        } else {
            Command::Ignore
        },
        Key::Up => Command::Move(Direction::Up),
        Key::Down => Command::Move(Direction::Down),
        Key::Enter => Command::Confirm,
        Key::Other => Command::Ignore,
    }
}

pub fn interpret(key: Key) -> (r: Command)
    ensures
        r == command_of(key),
{
    match key {
        Key::Char('q') => Command::Quit,
        Key::Char('k') | Key::Up => Command::Move(Direction::Up),
        Key::Char('j') | Key::Down => Command::Move(Direction::Down),
        Key::Enter => Command::Confirm,
        _ => Command::Ignore,
    }
}

} // verus!
