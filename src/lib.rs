//! A three-state cellular automaton (Conway's Game of Life with an extra
//! absorbing state) on a fixed-size toroidal grid, stepped one generation at a
//! time and rendered into an RGBA frame buffer.

pub mod laws;
pub mod torus;
pub mod utils;
pub mod world;
