//! Front end of the SPWN compiler: the syntax tree of a program and the pass
//! that builds it from the parse tree of the grammar.
//!
//! - `tree` is the parse tree that the builder reads, `shape` the shapes of
//!   tree that it can read, with a check for them.
//! - `ast` is the syntax tree that it builds, `model` the mathematical view of
//!   that tree and `cloning` its copies.
//! - `syntax` says what syntax tree a parse tree stands for, and `parser`
//!   builds it.
//! - `notice` lists what the builder had to replace by a stand-in, `balance`
//!   shows that every expression it builds has one operand more than
//!   operators, and `text` reads the tokens.

pub mod ast;
pub mod balance;
pub mod cloning;
pub mod model;
pub mod notice;
pub mod parser;
pub mod shape;
pub mod syntax;
pub mod text;
pub mod tree;
