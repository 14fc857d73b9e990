//! Conway's Game of Life on a bounded rectangular grid, with verified rules.
//!
//! - [`life`] is the mathematical model: a generation is a sequence of rows
//!   of cells, and [`life::next_generation`] is the generation that follows it.
//! - [`pool`] holds [`Pool`], the executable grid. Every operation on it is
//!   specified against the model.
//! - [`engine`] computes the next generation of a grid, slice by slice, so
//!   that a caller may hand the slices to workers of its own.
//! - [`laws`] proves what holds of every grid.
//! - [`controls`] decides what the keys and buttons of a front end do.
//! - [`random`] wraps the random source; its contracts are taken on trust.

pub mod controls;
pub mod engine;
pub mod laws;
pub mod life;
pub mod pool;
pub mod random;

pub use pool::Pool;
