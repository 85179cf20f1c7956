//! Conway's Game of Life on a fixed-size rectangular grid.
//!
//! The grid and the cellular-automaton update rule live in [`grid`], with
//! contracts that pin the rule down exactly; [`seed`] builds the starting
//! generation, either from a fixed five-coordinate pattern or from an
//! unweighted random fill.

pub mod grid;
pub mod seed;
