//! A minimal dungeon model: a rectangular tile grid with carved rooms, a
//! movable character, and a key-driven controller state machine. The terminal
//! front end lives outside the library and only replays frames computed here.

pub mod character;
pub mod game;
pub mod level;
pub mod room;
pub mod tile;
