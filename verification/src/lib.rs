//! Conway's Game of Life on a bounded rectangular grid with hard,
//! non-wrapping edges.
//!
//! [`grid::Grid`] is the mathematical model: what a grid is and what one
//! generation does to it. [`world::World`] is the executable engine, whose
//! every operation is proved against that model. [`pattern::Spaceship`] is a
//! named template of cells that a world can stamp onto its grid, and
//! [`render`] says how a grid reads as text. [`laws`] holds what follows for
//! every grid: the rule cell by cell, the neighbour counts at edges and
//! corners, the block and the blinker, and the layout of the text.

pub mod grid;
pub mod laws;
pub mod pattern;
pub mod render;
pub mod world;

pub use grid::Grid;
pub use pattern::{Coord, OutOfBounds, Spaceship};
pub use world::World;
