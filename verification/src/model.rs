//! The ghost-level account of a lexer run.
//!
//! [`LexerModel`] mirrors the driver's whole state — transition state,
//! input, positions, line, the terminated flag — plus a trace of
//! [`Piece`]s: every run of characters that was ever committed at an
//! alignment point, marked as an emitted lexeme or as discarded
//! delimiters. [`run`] is the mathematical driver: it says, for any such
//! state, what the next request for a token returns and what state the
//! lexer is in afterwards. The executable driver's contract is stated
//! against it.

use vstd::prelude::*;

use crate::state::FinishAction;
use crate::state::LexerAction;
use crate::state::State;
use crate::state::spec_finish;
use crate::state::spec_transition;
use crate::token::TokenKind;

verus! {

/// One committed run of characters: an emitted lexeme, or delimiters that
/// were discarded at an alignment point.
#[verifier::ext_equal]
pub ghost struct Piece {
    /// The characters of the run, in input order.
    pub chars: Seq<char>,
    /// Whether the run was emitted as a token's lexeme.
    pub emitted: bool,
}

/// The whole state of a lexer, as mathematics.
#[verifier::ext_equal]
pub ghost struct LexerModel {
    /// The state the transition table is in.
    pub state: State,
    /// The whole input.
    pub input: Seq<char>,
    /// The current alignment point.
    pub position: nat,
    /// How many characters past the alignment point have been consumed.
    pub offset: nat,
    /// The 1-based line number.
    pub line: nat,
    /// Whether the stream has terminated, by exhaustion or by error.
    pub ended: bool,
    /// Every committed run so far, oldest first.
    pub pieces: Seq<Piece>,
}

/// How many newline characters `s` holds.
pub open spec fn newline_count(s: Seq<char>) -> nat
    decreases s.len(),
{
    if s.len() == 0 {
        0
    } else {
        newline_count(s.drop_last()) + if s.last() == '\n' {
            1nat
        } else {
            0nat
        }
    }
}

/// The committed runs written out again, in order.
pub open spec fn flatten_pieces(ps: Seq<Piece>) -> Seq<char>
    decreases ps.len(),
{
    if ps.len() == 0 {
        Seq::empty()
    } else {
        flatten_pieces(ps.drop_last()) + ps.last().chars
    }
}

impl LexerModel {
    /// The pending lexeme: consumed but not yet committed.
    pub open spec fn buf(self) -> Seq<char> {
        self.input.subrange(self.position as int, self.position + self.offset as int)
    }

    /// Everything consumed so far, committed or pending.
    pub open spec fn consumed(self) -> Seq<char> {
        self.input.take(self.position + self.offset as int)
    }

    /// Whether the read position has reached the input's end.
    pub open spec fn at_end(self) -> bool {
        self.position + self.offset >= self.input.len()
    }

    /// The character under judgement.
    pub open spec fn head(self) -> char {
        self.input[self.position + self.offset as int]
    }

    /// The same lexer in transition state `s`.
    pub open spec fn with_state(self, s: State) -> LexerModel {
        LexerModel { state: s, ..self }
    }

    /// The lexer after consuming the character under judgement, the line
    /// number moved on when that character is a newline.
    pub open spec fn consumed_char(self) -> LexerModel {
        LexerModel {
            offset: self.offset + 1,
            line: if self.head() == '\n' {
                self.line + 1
            } else {
                self.line
            },
            ..self
        }
    }

    /// The lexer after committing the pending run at a new alignment point.
    pub open spec fn committed(self, emitted: bool) -> LexerModel {
        LexerModel {
            position: self.position + self.offset,
            offset: 0,
            pieces: self.pieces.push(Piece { chars: self.buf(), emitted }),
            ..self
        }
    }

    /// The lexer with its stream terminated.
    pub open spec fn stopped(self) -> LexerModel {
        LexerModel { ended: true, ..self }
    }

    /// Everything the driver keeps true between requests: the read position
    /// stays within the input, the line number counts exactly the consumed
    /// newlines (from 1), the committed runs written out again are exactly
    /// the input up to the alignment point, an emitted lexeme is never
    /// empty, and the transition state agrees with the pending lexeme —
    /// empty between tokens, non-empty inside a literal.
    pub open spec fn wf(self) -> bool {
        &&& self.input.len() < usize::MAX
        &&& self.position + self.offset <= self.input.len()
        &&& self.line == 1 + newline_count(self.consumed())
        &&& flatten_pieces(self.pieces) == self.input.take(self.position as int)
        &&& (forall|i: int|
            0 <= i < self.pieces.len() && (#[trigger] self.pieces[i]).emitted
                ==> self.pieces[i].chars.len() > 0)
        &&& (!self.ended ==> match self.state {
            State::StartLine => self.offset == 0,
            State::Start => self.offset == 0,
            State::Comment => true,
            State::Integer => self.offset > 0,
            State::DecimalPoint => self.offset > 0,
            State::Float => self.offset > 0,
        })
    }
}

/// A fresh lexer over `input`, at the start of line 1, nothing consumed.
pub open spec fn initial(input: Seq<char>) -> LexerModel {
    LexerModel {
        state: State::StartLine,
        input,
        position: 0,
        offset: 0,
        line: 1,
        ended: false,
        pieces: Seq::empty(),
    }
}

/// What one request for a token returns.
pub ghost enum Outcome {
    /// A token: its lexeme, class, 1-based line, and the input index of the
    /// lexeme's first character.
    Tok { lexeme: Seq<char>, kind: TokenKind, line: nat, start: nat },
    /// A lexical error at this input index and 1-based line; terminal.
    Fault { position: nat, line: nat },
    /// The stream is exhausted; terminal.
    Done,
}

/// Orders the states so that every zero-width transition strictly descends:
/// leaving `StartLine`, and leaving an empty comment at its newline.
pub open spec fn rank(s: State) -> nat {
    match s {
        State::Comment => 2,
        State::StartLine => 1,
        _ => 0,
    }
}

/// The mathematical driver: what one request for a token returns, and the
/// lexer state afterwards. Terminated streams answer `Done` and change
/// nothing; otherwise the transition table is applied, consuming and
/// committing as it directs, until it emits, fails, or the input ends.
pub open spec fn run(m: LexerModel) -> (Outcome, LexerModel)
    decreases m.input.len() - m.position - m.offset, rank(m.state),
{
    if m.ended {
        (Outcome::Done, m)
    } else if m.at_end() {
        match spec_finish(m.state, m.buf()) {
            FinishAction::Emit { kind } => (
                Outcome::Tok { lexeme: m.buf(), kind, line: m.line, start: m.position },
                m.committed(true).stopped(),
            ),
            FinishAction::Stop => (Outcome::Done, m.stopped()),
            FinishAction::Fail => (
                Outcome::Fault { position: m.position + m.offset, line: m.line },
                m.stopped(),
            ),
        }
    } else {
        let t = spec_transition(m.state, m.head(), m.buf());
        match t.1 {
            LexerAction::Advance { consume } => run(
                if consume {
                    m.consumed_char().with_state(t.0)
                } else {
                    m.with_state(t.0)
                },
            ),
            LexerAction::Skip => run(m.consumed_char().committed(false).with_state(t.0)),
            LexerAction::Emit { kind } => (
                Outcome::Tok { lexeme: m.buf(), kind, line: m.line, start: m.position },
                m.committed(true).with_state(t.0),
            ),
            LexerAction::Fail => (
                Outcome::Fault { position: m.position + m.offset, line: m.line },
                m.stopped(),
            ),
        }
    }
}

/// A newline count never exceeds the length counted over.
pub proof fn lemma_newline_count_le(s: Seq<char>)
    ensures
        newline_count(s) <= s.len(),
    decreases s.len(),
{
    if s.len() > 0 {
        lemma_newline_count_le(s.drop_last());
    }
}

/// Consuming one more character raises the newline count exactly when that
/// character is a newline.
pub proof fn lemma_newline_count_extend(s: Seq<char>, k: int)
    requires
        0 <= k < s.len(),
    ensures
        newline_count(s.take(k + 1)) == newline_count(s.take(k)) + if s[k] == '\n' {
            1int
        } else {
            0int
        },
{
    assert(s.take(k + 1).drop_last() =~= s.take(k));
    assert(s.take(k + 1).last() == s[k]);
}

/// Committing one more run appends exactly its characters to the
/// written-out trace.
pub proof fn lemma_flatten_push(ps: Seq<Piece>, p: Piece)
    ensures
        flatten_pieces(ps.push(p)) == flatten_pieces(ps) + p.chars,
{
    assert(ps.push(p).drop_last() =~= ps);
    assert(ps.push(p).last() == p);
}

/// A prefix of the input followed by the next slice of it is the longer
/// prefix.
pub proof fn lemma_take_concat(s: Seq<char>, a: int, b: int)
    requires
        0 <= a <= b <= s.len(),
    ensures
        s.take(b) == s.take(a) + s.subrange(a, b),
{
    assert(s.take(b) =~= s.take(a) + s.subrange(a, b));
}

} // verus!
