//! A verified tic-tac-toe core.
//!
//! The library holds the whole game logic: the 3x3 board and its rule
//! engine (win and draw detection), the interactive game state with its
//! cursor, and the mapping from decoded key presses to game commands.
//! Terminal input and rendering live outside the library.

pub mod game;
pub mod input;
pub mod rules;
