//! A growable last-in-first-out container with verified contracts.

pub mod generate;
pub mod laws;
pub mod model;
pub mod stack;

pub use crate::stack::{reverse, Stack};
