//! Source locations.

use vstd::prelude::*;

verus! {

/// A place in the source text: a line and a column, both counted from one by
/// whoever produced the tokens.
#[derive(Clone, Copy, Debug, PartialEq, Eq, Structural)]
pub struct Position {
    pub line: u32,
    pub column: u32,
}

impl Position {
    /// The position at the given line and column.
    pub fn new(line: u32, column: u32) -> (position: Self)
        ensures
            position == (Position { line, column }),
    {
        Position { line, column }
    }
}

} // verus!
