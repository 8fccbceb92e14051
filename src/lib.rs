//! A predictive recursive-descent parser for a small expression-oriented
//! language: it turns a sequence of tokens into an abstract syntax tree, or
//! reports the first place where the tokens leave the grammar.

pub mod tokens;
pub mod ast;
pub mod errors;
pub mod grammar;
pub mod parser;
pub mod laws;
