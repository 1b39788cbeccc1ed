//! What the player can do, and what the game makes of it.

use vstd::prelude::*;
use crate::sprites::snake::Direction;

verus! {

/// A key, as far as the game tells keys apart.
#[derive(Clone, Copy, PartialEq, Eq, Debug)]
pub enum Key {
    /// A key that types a character.
    Char(char),
    Esc,
    Up,
    Down,
    Left,
    Right,
    /// Any other key.
    Other,
}

/// What came in from the terminal.
#[derive(Clone, Copy, PartialEq, Eq, Debug)]
pub enum Input {
    /// A key was pressed.
    Key(Key),
    /// The terminal was resized to `w` columns and `h` rows. `measured` is
    /// the size that the terminal itself reported when asked, if it did.
    Resize { w: u16, h: u16, measured: Option<(u16, u16)> },
    /// Anything else.
    Other,
}

/// What the game does about an input.
#[derive(Clone, Copy, PartialEq, Eq, Debug)]
pub enum Command {
    /// Leave the game.
    Quit,
    /// Turn the snake.
    Turn(Direction),
    /// See whether the game still fits the terminal.
    Resize { w: u16, h: u16, measured: Option<(u16, u16)> },
    /// Carry on.
    Nothing,
}

/// The command that an input stands for: `q` and Escape quit, an arrow key
/// turns the snake that way, a resize is looked into, and everything else,
/// no input at all included, is passed over.
pub open spec fn command_for(input: Option<Input>) -> Command {
    match input {
        Some(Input::Key(Key::Char(c))) => if c == 'q' {
            Command::Quit
        } else {
            Command::Nothing
        },
        Some(Input::Key(Key::Esc)) => Command::Quit,
        Some(Input::Key(Key::Up)) => Command::Turn(Direction::Up),
        Some(Input::Key(Key::Down)) => Command::Turn(Direction::Down),
        Some(Input::Key(Key::Left)) => Command::Turn(Direction::Left),
        Some(Input::Key(Key::Right)) => Command::Turn(Direction::Right),
        Some(Input::Key(Key::Other)) => Command::Nothing,
        Some(Input::Resize { w, h, measured }) => Command::Resize { w, h, measured },
        Some(Input::Other) => Command::Nothing,
        None => Command::Nothing,
    }
}

/// The command that an input stands for.
pub fn command(input: Option<Input>) -> (command: Command)
    ensures
        command == command_for(input),
{
    match input {
        Some(Input::Key(key)) => match key {
            Key::Char(c) => if c == 'q' {
                Command::Quit
            } else {
                Command::Nothing
            },
            Key::Esc => Command::Quit,
            Key::Up => Command::Turn(Direction::Up),
            Key::Down => Command::Turn(Direction::Down),
            Key::Left => Command::Turn(Direction::Left),
            Key::Right => Command::Turn(Direction::Right),
            Key::Other => Command::Nothing,
        },
        Some(Input::Resize { w, h, measured }) => Command::Resize { w, h, measured },
        Some(Input::Other) => Command::Nothing,
        None => Command::Nothing,
    }
}

} // verus!
