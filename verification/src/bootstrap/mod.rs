//! The recogniser of the newer grammar notation, in which the library
//! reads its own grammar.

pub mod parse_cst;
pub mod regex;
pub mod syntax;
