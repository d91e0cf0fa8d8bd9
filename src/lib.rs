//! A falling-snow animation for text terminals: a grid of glyph cells that
//! scrolls down one row per tick, fed by randomly generated rows at the top.

pub mod grid;
pub mod snow;
pub mod terminal;

pub use grid::Grid;
pub use snow::{Config, Snowfall};
pub use terminal::{Error, Terminal};
