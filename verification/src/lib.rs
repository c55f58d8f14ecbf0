//! Parameter matrices for benchmarks: typed cell values, the rows that
//! combine them, the lazy Cartesian product over a list of axes, and the
//! decisions of a suite that runs one benchmark case per combination.

pub mod convert;
pub mod equality;
pub mod generator;
pub mod lifecycle;
pub mod params;
pub mod sample;
pub mod suite;
pub mod text;

pub use generator::{generate_combinations, try_generate_combinations, CombinationIterator};
pub use params::{AbstractCombination, MatrixCellValue};
