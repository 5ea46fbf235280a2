//! What the lexer produces: classified lexemes with their source position,
//! or a single positioned lexical error.

use vstd::prelude::*;

verus! {

/// The class of an emitted token.
#[derive(Clone, Copy, Debug, PartialEq, Eq, Structural)]
pub enum TokenKind {
    Comment,
    Integer,
    Float,
}

/// A classified lexeme plus its source position. Immutable once produced.
#[derive(Debug)]
pub struct Token {
    /// Exactly the characters of the input between the two alignment points
    /// that delimit the token; never empty.
    pub lexeme: Vec<char>,
    /// The token's class.
    pub kind: TokenKind,
    /// The 1-based line on which the lexeme lies.
    pub line: usize,
    /// The index into the input of the lexeme's first character.
    pub start_offset: usize,
}

/// A lexical error: a character was not acceptable under the state the
/// machine was in. Produced once; the stream then stays terminated.
#[derive(Clone, Copy, Debug, PartialEq, Eq, Structural)]
pub struct LexError {
    /// The index into the input of the offending character, or the input's
    /// length when the input ended where a character was still required.
    pub position: usize,
    /// The 1-based line on which the offence was observed.
    pub line: usize,
}

} // verus!
