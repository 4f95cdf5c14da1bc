//! Translator core for a small imperative toy language.
//!
//! An external grammar engine turns raw source text into a tree of
//! rule-tagged parse nodes.  This crate builds a typed, semantically
//! checked abstract syntax tree from such a tree ([`ast_parser`]) and
//! renders the tree as C-compatible source text ([`c_parser`]).

pub mod ast;
pub mod ast_parser;
pub mod c_parser;
pub mod float_text;
pub mod laws;
pub mod parse_tree;
pub mod symbols;
