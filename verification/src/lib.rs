//! A syntax-tree model and recursive-descent parser/printer pair for the
//! declaration grammar of a statically typed language: struct and enum member
//! lists, named and positional fields, enum variants with optional explicit
//! discriminants, and visibility qualifiers.
//!
//! Parsing and printing are specified against one another: every successful
//! parse yields a tree whose printed token sequence is exactly the consumed
//! input (the round-trip law, proved in `laws`).

pub mod ast;
pub mod laws;
pub mod parsing;
pub mod printing;
pub mod token;
