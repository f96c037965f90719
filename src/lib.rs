//! Grid geometry and draw primitives for a snake-style game board.
//!
//! Pixel quantities are fixed-point integers counted in tenths of a pixel,
//! so that every length the board uses (a cell, a fifth of a cell) is exact.
pub mod geometry;
pub mod shapes;

pub use geometry::{Coord, Direction, Position, BLOCK_SIZE, SUBPIXELS_PER_PIXEL};
pub use shapes::{draw_eyes, draw_rectangle, Block, Primitive, Rect, Shape, EYE_SIZE};
