//! The sentence framer and dispatcher.

pub mod parser;
pub mod structs;
