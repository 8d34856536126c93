//! A recursive-descent parser for a small language of integer arithmetic,
//! function definitions and variable bindings.
//!
//! The parser consumes a sequence of [`token::Token`]s and builds the syntax
//! tree of [`ast`]. What each production accepts, and the tree it builds, is
//! defined mathematically in [`grammar`]; the functions of [`parser::Parser`]
//! are proved to compute exactly that.

pub mod ast;
pub mod embedding;
pub mod grammar;
pub mod parser;
pub mod position;
pub mod progress;
pub mod shape;
pub mod spans;
pub mod text;
pub mod token;
pub mod views;

pub use embedding::Guest;
pub use parser::{parse, Parser};
