//! A lexer for the Monkey scripting language: it turns source text into a flat
//! sequence of classified tokens, one token per call.

pub mod laws;
pub mod lexer;
pub mod text;
pub mod token;
