use crate::text::{i64_to_string, signed_decimal};
use vstd::prelude::*;

verus! {

/// A place in the source text.
#[derive(Debug, Clone, Copy, PartialEq, Eq, Structural, Hash)]
pub struct Position {
    pub char_number: usize,
    pub line: i64,
    pub col: i64,
}

impl Position {
    pub fn new(cn: usize, l: i64, c: i64) -> (p: Position)
        ensures
            p == (Position { char_number: cn, line: l, col: c }),
    {
        Position { char_number: cn, line: l, col: c }
    }

    /// The position as it is written in messages: line, colon, column.
    pub open spec fn text(self) -> Seq<char> {
        signed_decimal(self.line as int) + ":"@ + signed_decimal(self.col as int)
    }

    pub fn to_string(&self) -> (s: String)
        ensures
            s@ == self.text(),
    {
        let mut s = i64_to_string(self.line);
        s.append(":");
        let c = i64_to_string(self.col);
        s.append(c.as_str());
        s
    }
}

} // verus!
