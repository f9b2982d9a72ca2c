//! Intermediate representation of grammars, with the analyses that turn a
//! grammar definition into typed syntax-tree descriptions.
//!
//! The core is the expression tree of a rule body ([`expression`]) with
//! its combinators ([`algebra`]), the lattice of field counters
//! ([`counter`]), the inference of the fields of a syntax-tree node
//! ([`fields`], [`rule`]) and the passes over a grammar with their
//! pipeline ([`optimize`]). Around it stand the recognisers of the two
//! grammar notations ([`cst`], [`bootstrap`]), the translation of a parsed
//! grammar file ([`translate`]), and what editors and code generators
//! need ([`hints`], [`codegen`], [`node`], [`span`]).

pub mod advance;
pub mod algebra;
pub mod bootstrap;
pub mod codegen;
pub mod counter;
pub mod cst;
pub mod data;
pub mod errors;
pub mod expression;
pub mod fields;
pub mod grammar;
pub mod hints;
pub mod kinds;
pub mod node;
pub mod operator;
pub mod optimize;
pub mod rule;
pub mod sequence;
pub mod span;
pub mod text;
pub mod translate;
