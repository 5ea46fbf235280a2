//! The driver: turns the pure transition table into a lazy, pull-based
//! token stream over a cursor.
//!
//! Each request for a token loops: peek one character, ask the table, apply
//! the action to the cursor, until the table emits a token, rejects the
//! character, or the input ends. The contract of [`Lexer::next`] is exact:
//! it answers precisely what the mathematical driver [`run`] answers on the
//! lexer's ghost model, and keeps the model's invariants — bounds, line
//! counting, reconstruction — at every step.

use vstd::prelude::*;

use crate::cursor::Cursor;
use crate::model::LexerModel;
use crate::model::Outcome;
use crate::model::Piece;
use crate::model::flatten_pieces;
use crate::model::initial;
use crate::model::lemma_flatten_push;
use crate::model::lemma_newline_count_extend;
use crate::model::lemma_newline_count_le;
use crate::model::lemma_take_concat;
use crate::model::newline_count;
use crate::model::rank;
use crate::model::run;
use crate::state::FinishAction;
use crate::state::LexerAction;
use crate::state::State;
use crate::token::LexError;
use crate::token::Token;

verus! {

/// The lazy token stream: a cursor, the current transition state, and
/// whether the stream has terminated.
pub struct Lexer {
    /// Position bookkeeping over the input; exclusively owned.
    pub cursor: Cursor,
    /// The state the transition table is in.
    pub state: State,
    /// Set once the stream has terminated, by exhaustion or by error.
    pub end: bool,
    /// Ghost trace of every committed run, for the reconstruction law.
    pub pieces: Ghost<Seq<Piece>>,
}

/// Whether a driver answer is the one the mathematical driver gives: the
/// same token, the same error, or the same end-of-stream signal.
pub open spec fn outcome_matches(r: Option<Result<Token, LexError>>, o: Outcome) -> bool {
    match o {
        Outcome::Tok { lexeme, kind, line, start } => match r {
            Some(Ok(t)) => t.lexeme@ == lexeme && t.kind == kind && t.line == line
                && t.start_offset == start,
            _ => false,
        },
        Outcome::Fault { position, line } => match r {
            Some(Err(e)) => e.position == position && e.line == line,
            _ => false,
        },
        Outcome::Done => match r {
            None => true,
            _ => false,
        },
    }
}

/// A fresh copy of a character vector.
fn clone_chars(v: &Vec<char>) -> (r: Vec<char>)
    ensures
        r@ == v@,
{
    let mut r: Vec<char> = Vec::new();
    let mut i: usize = 0;
    while i < v.len()
        invariant
            i <= v@.len(),
            r@ == v@.take(i as int),
        decreases v@.len() - i,
    {
        let c = v[i];
        r.push(c);
        proof {
            assert(r@ =~= v@.take(i + 1 as int));
        }
        i = i + 1;
    }
    proof {
        assert(r@ =~= v@);
    }
    r
}

impl Lexer {
    /// The lexer as mathematics.
    pub open spec fn model(self) -> LexerModel {
        LexerModel {
            state: self.state,
            input: self.cursor.input@,
            position: self.cursor.position as nat,
            offset: self.cursor.offset as nat,
            line: self.cursor.line as nat,
            ended: self.end,
            pieces: self.pieces@,
        }
    }

    /// Everything that holds of a lexer between requests.
    pub open spec fn wf(self) -> bool {
        &&& self.cursor.wf()
        &&& self.model().wf()
    }

    /// A fresh lexer over the whole input, at the start of line 1.
    pub fn new(input: Vec<char>) -> (l: Lexer)
        requires
            input@.len() < usize::MAX,
        ensures
            l.wf(),
            l.model() == initial(input@),
    {
        let l = Lexer {
            cursor: Cursor::new(input),
            state: State::StartLine,
            end: false,
            pieces: Ghost(Seq::empty()),
        };
        proof {
            assert(l.cursor.input@.take(0) =~= Seq::<char>::empty());
            assert(flatten_pieces(Seq::<Piece>::empty()) =~= l.cursor.input@.take(0));
            assert(l.model() =~= initial(l.cursor.input@));
        }
        l
    }

    /// Advances the stream and returns the next token, a terminal lexical
    /// error, or `None` for exhaustion. The answer and the new state are
    /// exactly those of the mathematical driver [`run`]; in particular a
    /// terminated stream answers `None` forever and changes nothing, and an
    /// emitted token's lexeme is the exact, never empty slice of the input
    /// starting at its `start_offset`.
    #[verifier::loop_isolation(false)]
    pub fn next(&mut self) -> (r: Option<Result<Token, LexError>>)
        requires
            old(self).wf(),
        ensures
            final(self).wf(),
            outcome_matches(r, run(old(self).model()).0),
            final(self).model() == run(old(self).model()).1,
            (match r {
                Some(Ok(t)) => t.lexeme@.len() > 0 && t.start_offset + t.lexeme@.len()
                    <= old(self).cursor.input@.len() && t.lexeme@
                    == old(self).cursor.input@.subrange(
                    t.start_offset as int,
                    t.start_offset + t.lexeme@.len(),
                ),
                _ => true,
            }),
    {
        if self.end {
            return None;
        }
        let ghost m0 = self.model();
        loop
            invariant
                self.wf(),
                !self.end,
                self.cursor.input@ == m0.input,
                run(m0) == run(self.model()),
            decreases 3 * (self.cursor.input@.len() - self.cursor.position - self.cursor.offset)
                + rank(self.state),
        {
            let ghost m = self.model();
            match self.cursor.peek() {
                None => {
                    match self.state.finish(&self.cursor.buffer) {
                        FinishAction::Emit { kind } => {
                            let lexeme = clone_chars(&self.cursor.buffer);
                            let tok = Token {
                                lexeme,
                                kind,
                                line: self.cursor.line,
                                start_offset: self.cursor.position,
                            };
                            proof {
                                assert(m.buf().len() > 0);
                                lemma_flatten_push(
                                    self.pieces@,
                                    Piece { chars: self.cursor.buffer@, emitted: true },
                                );
                                lemma_take_concat(
                                    m.input,
                                    m.position as int,
                                    m.position + m.offset as int,
                                );
                            }
                            self.pieces = Ghost(
                                self.pieces@.push(
                                    Piece { chars: self.cursor.buffer@, emitted: true },
                                ),
                            );
                            self.cursor.start();
                            self.end = true;
                            proof {
                                assert(self.model() =~= run(m).1);
                            }
                            return Some(Ok(tok));
                        },
                        FinishAction::Stop => {
                            self.end = true;
                            proof {
                                assert(self.model() =~= run(m).1);
                            }
                            return None;
                        },
                        FinishAction::Fail => {
                            let err = LexError {
                                position: self.cursor.position + self.cursor.offset,
                                line: self.cursor.line,
                            };
                            self.end = true;
                            proof {
                                assert(self.model() =~= run(m).1);
                            }
                            return Some(Err(err));
                        },
                    }
                },
                Some(c) => {
                    let (next_state, action) = self.state.transition(c, &self.cursor.buffer);
                    match action {
                        LexerAction::Advance { consume } => {
                            if consume {
                                proof {
                                    assert(c != '\n');
                                }
                                self.cursor.advance();
                                proof {
                                    lemma_newline_count_extend(
                                        m.input,
                                        m.position + m.offset as int,
                                    );
                                }
                            }
                            self.state = next_state;
                            proof {
                                assert(self.model() =~= (if consume {
                                    m.consumed_char().with_state(next_state)
                                } else {
                                    m.with_state(next_state)
                                }));
                            }
                        },
                        LexerAction::Skip => {
                            self.cursor.advance();
                            if c == '\n' {
                                proof {
                                    lemma_newline_count_le(
                                        m.input.take(m.position + m.offset as int),
                                    );
                                }
                                self.cursor.new_line();
                            }
                            proof {
                                lemma_newline_count_extend(m.input, m.position + m.offset as int);
                                lemma_flatten_push(
                                    self.pieces@,
                                    Piece { chars: self.cursor.buffer@, emitted: false },
                                );
                                lemma_take_concat(
                                    m.input,
                                    m.position as int,
                                    m.position + m.offset + 1 as int,
                                );
                            }
                            self.pieces = Ghost(
                                self.pieces@.push(
                                    Piece { chars: self.cursor.buffer@, emitted: false },
                                ),
                            );
                            self.cursor.start();
                            self.state = next_state;
                            proof {
                                assert(self.model() =~= m.consumed_char().committed(
                                    false,
                                ).with_state(next_state));
                            }
                        },
                        LexerAction::Emit { kind } => {
                            let lexeme = clone_chars(&self.cursor.buffer);
                            let tok = Token {
                                lexeme,
                                kind,
                                line: self.cursor.line,
                                start_offset: self.cursor.position,
                            };
                            proof {
                                assert(m.buf().len() > 0);
                                lemma_flatten_push(
                                    self.pieces@,
                                    Piece { chars: self.cursor.buffer@, emitted: true },
                                );
                                lemma_take_concat(
                                    m.input,
                                    m.position as int,
                                    m.position + m.offset as int,
                                );
                            }
                            self.pieces = Ghost(
                                self.pieces@.push(
                                    Piece { chars: self.cursor.buffer@, emitted: true },
                                ),
                            );
                            self.cursor.start();
                            self.state = next_state;
                            proof {
                                assert(self.model() =~= m.committed(true).with_state(next_state));
                            }
                            return Some(Ok(tok));
                        },
                        LexerAction::Fail => {
                            let err = LexError {
                                position: self.cursor.position + self.cursor.offset,
                                line: self.cursor.line,
                            };
                            self.end = true;
                            proof {
                                assert(self.model() =~= m.stopped());
                            }
                            return Some(Err(err));
                        },
                    }
                },
            }
        }
    }
}

/// The cursor never reads past the input: between any two requests the read
/// position `position + offset` lies within the input's length.
pub proof fn lemma_in_bounds(l: Lexer)
    requires
        l.wf(),
    ensures
        l.cursor.position + l.cursor.offset <= l.cursor.input@.len(),
{
}

/// Reconstruction: writing out every committed run — emitted lexemes and
/// discarded delimiters alike, in order — followed by the pending lexeme
/// gives back exactly the consumed prefix of the input: no character is
/// dropped or duplicated. And every emitted lexeme is non-empty.
pub proof fn lemma_reconstruction(l: Lexer)
    requires
        l.wf(),
    ensures
        flatten_pieces(l.pieces@) + l.cursor.buffer@ == l.cursor.input@.take(
            l.cursor.position + l.cursor.offset as int,
        ),
        forall|i: int|
            0 <= i < l.pieces@.len() && (#[trigger] l.pieces@[i]).emitted ==> l.pieces@[i].chars.len()
                > 0,
{
    lemma_take_concat(
        l.cursor.input@,
        l.cursor.position as int,
        l.cursor.position + l.cursor.offset as int,
    );
}

/// The line number always equals one more than the number of newline
/// characters consumed so far.
pub proof fn lemma_line_count(l: Lexer)
    requires
        l.wf(),
    ensures
        l.cursor.line == 1 + newline_count(
            l.cursor.input@.take(l.cursor.position + l.cursor.offset as int),
        ),
{
}

/// Once the stream has terminated — by error or by exhaustion — every
/// further request answers the same terminal signal and changes nothing.
pub proof fn lemma_terminal_idempotent(m: LexerModel)
    requires
        m.ended,
    ensures
        run(m).0 == Outcome::Done,
        run(m).1 == m,
{
}

} // verus!
