//! Generation of Rust source for the fltk crate from parsed FLUID tokens.
pub mod model;
pub mod parser;
pub mod text;
pub mod utils;
pub mod gen;
pub mod laws;
