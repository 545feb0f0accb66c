//! Lowering of a Python syntax tree into the small, uniform Aleph tree, with
//! a diagnostic for each construct that could not be translated faithfully.
pub mod ast;
pub mod ir;
pub mod constant;
pub mod expr;
pub mod stmt;
pub mod laws;
