//! Position bookkeeping over the input buffer.
//!
//! A [`Cursor`] owns the text and tracks the committed read position, the
//! in-progress lexeme boundary and the current line number. It holds no
//! recognition logic: deciding what a character means is the transition
//! table's business; the cursor only moves when told to.

use vstd::prelude::*;

verus! {

/// The input buffer together with the read position, the pending lexeme
/// and the current line number.
#[derive(Debug)]
pub struct Cursor {
    /// The whole input, fixed for the cursor's lifetime.
    pub input: Vec<char>,
    /// 1-based line number of the character at `position + offset`.
    pub line: usize,
    /// Index of the current alignment point: everything before it has been
    /// committed, either as an emitted lexeme or as discarded delimiters.
    pub position: usize,
    /// How many characters past `position` have been consumed into the
    /// pending lexeme.
    pub offset: usize,
    /// The pending lexeme: the characters consumed since the last alignment.
    pub buffer: Vec<char>,
}

impl Cursor {
    /// The cursor never reads past the buffer, and the pending lexeme is
    /// exactly the consumed-but-uncommitted slice of the input.
    pub open spec fn wf(self) -> bool {
        &&& self.input@.len() <= usize::MAX
        &&& self.position + self.offset <= self.input@.len()
        &&& self.buffer@ == self.input@.subrange(
            self.position as int,
            self.position + self.offset,
        )
    }

    /// A fresh cursor at the start of line 1 of `input`.
    pub fn new(input: Vec<char>) -> (c: Cursor)
        ensures
            c.wf(),
            c.input@ == input@,
            c.line == 1,
            c.position == 0,
            c.offset == 0,
            c.buffer@ == Seq::<char>::empty(),
    {
        // Reading the length once records that it fits in usize.
        let _len: usize = input.len();
        let c = Cursor { input, line: 1, position: 0, offset: 0, buffer: Vec::new() };
        proof {
            assert(c.buffer@ =~= c.input@.subrange(0, 0));
        }
        c
    }

    /// The character at `position + offset`, or `None` past the end of the
    /// input. Mutates nothing, so repeated calls agree.
    pub fn peek(&self) -> (r: Option<char>)
        requires
            self.input@.len() <= usize::MAX,
            self.position + self.offset <= self.input@.len(),
        ensures
            r == if self.position + self.offset < self.input@.len() {
                Some(self.input@[self.position + self.offset])
            } else {
                None::<char>
            },
    {
        if self.position + self.offset < self.input.len() {
            Some(self.input[self.position + self.offset])
        } else {
            None
        }
    }

    /// Consumes the peeked character: appends it to the pending lexeme and
    /// moves the read position one character forward.
    pub fn advance(&mut self)
        requires
            old(self).wf(),
            old(self).position + old(self).offset < old(self).input@.len(),
        ensures
            final(self).wf(),
            final(self).input@ == old(self).input@,
            final(self).line == old(self).line,
            final(self).position == old(self).position,
            final(self).offset == old(self).offset + 1,
            final(self).buffer@ == old(self).buffer@.push(
                old(self).input@[old(self).position + old(self).offset],
            ),
    {
        let c = self.input[self.position + self.offset];
        self.buffer.push(c);
        self.offset = self.offset + 1;
        proof {
            assert(self.buffer@ =~= self.input@.subrange(
                self.position as int,
                self.position + self.offset,
            ));
        }
    }

    /// Moves to the next line. Called by the driver exactly when a consumed
    /// character is a newline.
    pub fn new_line(&mut self)
        requires
            old(self).line < usize::MAX,
        ensures
            final(self).line == old(self).line + 1,
            final(self).input@ == old(self).input@,
            final(self).position == old(self).position,
            final(self).offset == old(self).offset,
            final(self).buffer@ == old(self).buffer@,
    {
        self.line = self.line + 1;
    }

    /// Commits the pending run as the new baseline: the alignment point
    /// moves past everything consumed so far and the pending lexeme empties.
    pub fn start(&mut self)
        requires
            old(self).input@.len() <= usize::MAX,
            old(self).position + old(self).offset <= old(self).input@.len(),
        ensures
            final(self).wf(),
            final(self).input@ == old(self).input@,
            final(self).line == old(self).line,
            final(self).position == old(self).position + old(self).offset,
            final(self).offset == 0,
            final(self).buffer@ == Seq::<char>::empty(),
    {
        self.position = self.position + self.offset;
        self.offset = 0;
        self.buffer = Vec::new();
        proof {
            assert(self.buffer@ =~= self.input@.subrange(
                self.position as int,
                self.position as int,
            ));
        }
    }
}

} // verus!
