//! The state machine: a pure, total transition function from the current
//! state and the next character to a new state and an action.
//!
//! The table never touches the cursor; it sees only the character under
//! judgement and the pending lexeme, which keeps the lexical rules
//! independent of buffer arithmetic. Emission never absorbs the triggering
//! delimiter: the space or newline that ends a literal belongs to the next
//! token's leading skip, not to the token just emitted.
//!
//! Decisions this table fixes where the format leaves room:
//! - End of input is a valid terminator for every state with a token in
//!   progress: `Comment`, `Integer` and `Float` all emit their pending
//!   lexeme there, uniformly.
//! - End of input directly after a decimal point is a lexical error, the
//!   same as any other character that is no digit there.
//! - A comment's delimiter and the whitespace directly after it are
//!   discarded, so an emitted comment lexeme starts at the comment's first
//!   visible character and is never empty; a comment with no visible
//!   character at all emits no token.

use vstd::prelude::*;

use crate::chars;
use crate::token::TokenKind;

verus! {

/// A mode of the transition function: which character classes are currently
/// acceptable and what they trigger. `StartLine` is the initial state; end
/// of input is a signal into [`State::finish`], not a state.
#[derive(Clone, Copy, Debug, PartialEq, Eq, Structural)]
pub enum State {
    /// At the very start of a line, before any of its characters was judged.
    StartLine,
    /// Between tokens: skipping delimiters, deciding what comes next.
    Start,
    /// Inside a comment, past its `#` delimiter.
    Comment,
    /// Inside an integer literal.
    Integer,
    /// Directly after the decimal point of a would-be float literal.
    DecimalPoint,
    /// Inside a float literal, past the decimal point and a digit.
    Float,
}

/// What the driver is told to do with the character the table just judged.
#[derive(Clone, Copy, Debug, PartialEq, Eq, Structural)]
pub enum LexerAction {
    /// The token in progress goes on. With `consume` the character joins the
    /// pending lexeme; without it the same character is re-evaluated under
    /// the new state (a zero-width transition).
    Advance { consume: bool },
    /// The character is a delimiter: consume it and commit it as discarded,
    /// so it lies between lexemes and belongs to none.
    Skip,
    /// The pending lexeme is complete: emit it as a token of this kind and
    /// leave the triggering character for the new state to see.
    Emit { kind: TokenKind },
    /// The character is not acceptable under the current state: a lexical
    /// error at its position.
    Fail,
}

/// What the driver is told to do when the input ends.
#[derive(Clone, Copy, Debug, PartialEq, Eq, Structural)]
pub enum FinishAction {
    /// A token was still in progress: emit its pending lexeme with this kind.
    Emit { kind: TokenKind },
    /// Nothing was in progress: the stream is exhausted, without a token.
    Stop,
    /// A character was still required: a lexical error at the input's end.
    Fail,
}

/// The transition table as a mathematical function. [`State::transition`]
/// returns exactly this.
pub open spec fn spec_transition(s: State, c: char, buffer: Seq<char>) -> (State, LexerAction) {
    match s {
        State::StartLine => (State::Start, LexerAction::Advance { consume: false }),
        State::Start => if c == '#' {
            (State::Comment, LexerAction::Skip)
        } else if c == '\n' {
            (State::StartLine, LexerAction::Skip)
        } else if chars::is_whitespace(c) {
            (State::Start, LexerAction::Skip)
        } else if chars::is_digit(c) {
            (State::Integer, LexerAction::Advance { consume: true })
        } else {
            (s, LexerAction::Fail)
        },
        State::Comment => if c == '\n' {
            if buffer.len() == 0 {
                (State::StartLine, LexerAction::Advance { consume: false })
            } else {
                (State::StartLine, LexerAction::Emit { kind: TokenKind::Comment })
            }
        } else if chars::is_whitespace(c) && buffer.len() == 0 {
            (State::Comment, LexerAction::Skip)
        } else if chars::is_comment_char(c) {
            (State::Comment, LexerAction::Advance { consume: true })
        } else {
            (s, LexerAction::Fail)
        },
        State::Integer => if c == '.' {
            (State::DecimalPoint, LexerAction::Advance { consume: true })
        } else if chars::is_digit(c) {
            (State::Integer, LexerAction::Advance { consume: true })
        } else if chars::is_whitespace(c) {
            (State::Start, LexerAction::Emit { kind: TokenKind::Integer })
        } else {
            (s, LexerAction::Fail)
        },
        State::DecimalPoint => if chars::is_digit(c) {
            (State::Float, LexerAction::Advance { consume: true })
        } else {
            (s, LexerAction::Fail)
        },
        State::Float => if chars::is_digit(c) {
            (State::Float, LexerAction::Advance { consume: true })
        } else if chars::is_whitespace(c) {
            (State::Start, LexerAction::Emit { kind: TokenKind::Float })
        } else {
            (s, LexerAction::Fail)
        },
    }
}

/// The end-of-input rules as a mathematical function. [`State::finish`]
/// returns exactly this.
pub open spec fn spec_finish(s: State, buffer: Seq<char>) -> FinishAction {
    match s {
        State::StartLine => FinishAction::Stop,
        State::Start => FinishAction::Stop,
        State::Comment => if buffer.len() == 0 {
            FinishAction::Stop
        } else {
            FinishAction::Emit { kind: TokenKind::Comment }
        },
        State::Integer => FinishAction::Emit { kind: TokenKind::Integer },
        State::DecimalPoint => FinishAction::Fail,
        State::Float => FinishAction::Emit { kind: TokenKind::Float },
    }
}

impl State {
    /// Judges one character under the current state: the new state to adopt
    /// and the action to apply to the cursor. Total: every character gets an
    /// answer, if only `Fail`.
    pub fn transition(self, c: char, buffer: &Vec<char>) -> (r: (State, LexerAction))
        ensures
            r == spec_transition(self, c, buffer@),
    {
        match self {
            State::StartLine => (State::Start, LexerAction::Advance { consume: false }),
            State::Start => if c == '#' {
                (State::Comment, LexerAction::Skip)
            } else if c == '\n' {
                (State::StartLine, LexerAction::Skip)
            } else if chars::check_whitespace(c) {
                (State::Start, LexerAction::Skip)
            } else if chars::check_digit(c) {
                (State::Integer, LexerAction::Advance { consume: true })
            } else {
                (self, LexerAction::Fail)
            },
            State::Comment => if c == '\n' {
                if buffer.len() == 0 {
                    (State::StartLine, LexerAction::Advance { consume: false })
                } else {
                    (State::StartLine, LexerAction::Emit { kind: TokenKind::Comment })
                }
            } else if chars::check_whitespace(c) && buffer.len() == 0 {
                (State::Comment, LexerAction::Skip)
            } else if chars::check_comment_char(c) {
                (State::Comment, LexerAction::Advance { consume: true })
            } else {
                (self, LexerAction::Fail)
            },
            State::Integer => if c == '.' {
                (State::DecimalPoint, LexerAction::Advance { consume: true })
            } else if chars::check_digit(c) {
                (State::Integer, LexerAction::Advance { consume: true })
            } else if chars::check_whitespace(c) {
                (State::Start, LexerAction::Emit { kind: TokenKind::Integer })
            } else {
                (self, LexerAction::Fail)
            },
            State::DecimalPoint => if chars::check_digit(c) {
                (State::Float, LexerAction::Advance { consume: true })
            } else {
                (self, LexerAction::Fail)
            },
            State::Float => if chars::check_digit(c) {
                (State::Float, LexerAction::Advance { consume: true })
            } else if chars::check_whitespace(c) {
                (State::Start, LexerAction::Emit { kind: TokenKind::Float })
            } else {
                (self, LexerAction::Fail)
            },
        }
    }

    /// Judges the end of the input under the current state: emit the pending
    /// lexeme, end the stream cleanly, or fail where a character was still
    /// required.
    pub fn finish(self, buffer: &Vec<char>) -> (r: FinishAction)
        ensures
            r == spec_finish(self, buffer@),
    {
        match self {
            State::StartLine => FinishAction::Stop,
            State::Start => FinishAction::Stop,
            State::Comment => if buffer.len() == 0 {
                FinishAction::Stop
            } else {
                FinishAction::Emit { kind: TokenKind::Comment }
            },
            State::Integer => FinishAction::Emit { kind: TokenKind::Integer },
            State::DecimalPoint => FinishAction::Fail,
            State::Float => FinishAction::Emit { kind: TokenKind::Float },
        }
    }
}

} // verus!
