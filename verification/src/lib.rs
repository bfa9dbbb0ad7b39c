//! The rules of a small side-scrolling terminal game.
//!
//! A player glyph falls under gravity, flaps upward on demand and has to pass
//! through the gap of a wall that scrolls towards it. The crate holds the
//! game's state and rules only: every frame it is handed the key that was
//! pressed and the time that has passed, and it answers with the drawing
//! commands for that frame. Opening a window, reading the keyboard and
//! putting the commands on screen are left to the caller.

pub mod draw;
pub mod obstacle;
pub mod player;
pub mod screen;
pub mod state;
pub mod text;

pub use draw::{DrawCommand, Rgb};
pub use obstacle::Obstacle;
pub use player::Player;
pub use screen::{SCREEN_HEIGHT, SCREEN_WIDTH};
pub use state::{Frame, GameMode, Key, State, FRAME_DURATION};
