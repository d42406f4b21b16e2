//! The command layer of the interactive variant: which game command a
//! decoded key press stands for.
//!
//! The event loop decodes terminal events into [`Key`] values (only key
//! *presses*; release and repeat events are filtered out before they reach
//! this layer) and maps each to one [`Command`]. Arrow keys and the
//! vi-style letters are equivalent aliases for the four cursor directions.

use vstd::prelude::*;

verus! {

/// One of the four cursor directions.
#[derive(Clone, Copy, Debug, PartialEq, Eq, Structural)]
pub enum Direction {
    Up,
    Down,
    Left,
    Right,
}

/// One input command of the interactive variant.
#[derive(Clone, Copy, Debug, PartialEq, Eq, Structural)]
pub enum Command {
    /// Move the cursor one cell in a direction, clamped to the grid.
    MoveCursor(Direction),
    /// Place the current player's mark at the cursor.
    ConfirmSelection,
    /// Start the round over.
    Reset,
    /// Leave the game.
    Quit,
    /// A key with no binding; changes nothing.
    Ignored,
}

/// A decoded key press, as the event loop hands it to the game logic.
#[derive(Clone, Copy, Debug, PartialEq, Eq, Structural)]
pub enum Key {
    Up,
    Down,
    Left,
    Right,
    Enter,
    Char(char),
    Other,
}

/// The command a key press stands for: arrows and h/j/k/l move the cursor,
/// Enter/x/o confirm, r resets, q quits, anything else is ignored.
pub open spec fn command_of(key: Key) -> Command {
    match key {
        Key::Up => Command::MoveCursor(Direction::Up),
        Key::Down => Command::MoveCursor(Direction::Down),
        Key::Left => Command::MoveCursor(Direction::Left),
        Key::Right => Command::MoveCursor(Direction::Right),
        Key::Enter => Command::ConfirmSelection,
        Key::Char(ch) => if ch == 'k' {
            Command::MoveCursor(Direction::Up)
        } else if ch == 'j' {
            Command::MoveCursor(Direction::Down)
        } else if ch == 'h' {
            Command::MoveCursor(Direction::Left)
        } else if ch == 'l' {
            Command::MoveCursor(Direction::Right)
        } else if ch == 'x' || ch == 'o' {
            Command::ConfirmSelection
        } else if ch == 'r' {
            Command::Reset
        } else if ch == 'q' {
            Command::Quit
        } else {
            Command::Ignored
        },
        Key::Other => Command::Ignored,
    }
}

/// Maps a decoded key press to its game command.
pub fn command_for_key(key: Key) -> (command: Command)
    ensures
        command == command_of(key),
{
    match key {
        Key::Up => Command::MoveCursor(Direction::Up),
        Key::Down => Command::MoveCursor(Direction::Down),
        Key::Left => Command::MoveCursor(Direction::Left),
        Key::Right => Command::MoveCursor(Direction::Right),
        Key::Enter => Command::ConfirmSelection,
        Key::Char(ch) => {
            if ch == 'k' {
                Command::MoveCursor(Direction::Up)
            } else if ch == 'j' {
                Command::MoveCursor(Direction::Down)
            } else if ch == 'h' {
                Command::MoveCursor(Direction::Left)
            } else if ch == 'l' {
                Command::MoveCursor(Direction::Right)
            } else if ch == 'x' || ch == 'o' {
                Command::ConfirmSelection
            } else if ch == 'r' {
                Command::Reset
            } else if ch == 'q' {
                Command::Quit
            } else {
                Command::Ignored
            }
        },
        Key::Other => Command::Ignored,
    }
}

} // verus!
