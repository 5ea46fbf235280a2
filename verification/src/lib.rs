//! Tokenizer for a line-oriented structured text format: comments and bare
//! numeric literals, classified character by character by a finite-state
//! machine over an in-memory buffer.
//!
//! The crate is split along the data flow: [`cursor`] does position
//! bookkeeping over the input, [`state`] holds the pure transition table,
//! [`lexer`] drives the two and hands out [`token::Token`] values one at a
//! time, and [`model`] gives the ghost-level account of a whole run that the
//! driver's contract is stated against.

pub mod chars;
pub mod cursor;
pub mod lexer;
pub mod model;
pub mod state;
pub mod token;
