//! The input accumulator: a two-state machine that assembles input lines
//! into one complete statement and decides when to dispatch. Empty means
//! the buffer is clear; Accumulating means lines are buffered and the
//! machine is waiting for a line whose trimmed content ends with the
//! statement terminator.

use vstd::prelude::*;
use crate::text::trim_spec;

verus! {

/// Whether one new line completes the pending statement: its trimmed
/// content ends with the statement terminator.
pub open spec fn line_completes(line: Seq<char>) -> bool {
    trim_spec(line).len() > 0 && trim_spec(line)[trim_spec(line).len() - 1] == ';'
}

/// The buffer of lines not yet dispatched. Each pushed line is followed by
/// a single separating space.
pub struct Accumulator {
    pub buffer: String,
}

impl Accumulator {
    /// Whether the machine is in the Accumulating state (some input is
    /// buffered and not yet dispatched).
    pub open spec fn accumulating(&self) -> bool {
        self.buffer@.len() > 0
    }

    /// A fresh machine in the Empty state.
    pub fn new() -> (r: Accumulator)
        ensures
            r.buffer@ == Seq::<char>::empty(),
            !r.accumulating(),
    {
        Accumulator { buffer: String::new() }
    }

    /// Whether a continuation prompt is owed: true exactly in the
    /// Accumulating state.
    pub fn is_accumulating(&self) -> (r: bool)
        ensures
            r == self.accumulating(),
    {
        !self.buffer.as_str().is_empty()
    }

    /// Take in one line of input. The line and a separating space join the
    /// buffer; the whole buffer is returned for dispatch, and the machine
    /// returns to Empty, exactly when the line's trimmed content ends with
    /// the statement terminator. A line without it never dispatches.
    pub fn push_line(&mut self, line: &str) -> (r: Option<String>)
        ensures
            r is Some <==> line_completes(line@),
            r matches Some(stmt) ==> stmt@ == old(self).buffer@ + line@ + seq![' ']
                && final(self).buffer@ == Seq::<char>::empty(),
            r is None ==> final(self).buffer@ == old(self).buffer@ + line@ + seq![' '],
    {
        self.buffer.append(line);
        self.buffer.append(" ");
        proof {
            reveal_strlit(" ");
            assert(self.buffer@ =~= old(self).buffer@ + line@ + seq![' ']);
        }
        let trimmed = crate::text::str_trim(line);
        let tlen: usize = trimmed.unicode_len();
        if tlen > 0 && trimmed.get_char(tlen - 1) == ';' {
            let stmt = self.buffer.clone();
            self.buffer = String::new();
            Some(stmt)
        } else {
            None
        }
    }

    /// An interrupt discards any buffered input and returns the machine to
    /// Empty. Nothing is dispatched: no statement is handed back, so no
    /// executor can be reached from here.
    pub fn interrupt(&mut self)
        ensures
            final(self).buffer@ == Seq::<char>::empty(),
            !final(self).accumulating(),
    {
        self.buffer = String::new();
    }
}

} // verus!
