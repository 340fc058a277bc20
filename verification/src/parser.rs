//! The protocol that every production follows.

use vstd::prelude::*;
use crate::cursor::Cursor;
use crate::error::{result_view, ParseResult};
use crate::grammar::Parsed;
use crate::interner::Interner;
use crate::token::Token;

verus! {

/// A grammar production: given the cursor and the interned names, it takes
/// zero or more tokens and returns a tree fragment or the first error.
///
/// Every production has the same shape, so any of them can call any other.
/// The interner is only read, to spell out a rejected token.
pub trait TokenParser: Sized {
    /// What the production yields on `tokens` from position `pos` on.
    spec fn parsed(self, tokens: Seq<Token>, pos: nat, names: Seq<Seq<char>>) -> Parsed;

    /// Runs the production at the cursor.
    ///
    /// The result and the distance that the cursor moves are exactly those of
    /// `parsed`. The cursor stays well-formed and its record of movements
    /// only grows, so a parse never rewinds twice in a row.
    fn parse(self, cursor: &mut Cursor<'_>, interner: &mut Interner) -> (result: ParseResult)
        requires
            old(cursor).wf(),
        ensures
            final(cursor).wf(),
            final(cursor).tokens() == old(cursor).tokens(),
            old(cursor).moves().is_prefix_of(final(cursor).moves()),
            *final(interner) == *old(interner),
            result_view(result) == self.parsed(
                old(cursor).tokens(),
                old(cursor).position(),
                old(interner)@,
            ).result,
            final(cursor).position() == old(cursor).position() + self.parsed(
                old(cursor).tokens(),
                old(cursor).position(),
                old(interner)@,
            ).consumed,
    ;
}

} // verus!
