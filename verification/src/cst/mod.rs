//! The recogniser of the grammar notation.

pub mod parse;
pub mod rule;
pub mod scan;
pub mod state;
pub mod syntax;
