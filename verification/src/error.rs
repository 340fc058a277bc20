//! Parse errors.

use vstd::prelude::*;
use crate::node::Node;
use crate::position::Position;
use crate::token::Token;

verus! {

/// Why a parse stopped. There is no recovery: the first error ends the parse
/// and is handed up unchanged.
#[derive(Debug, PartialEq, Eq)]
pub enum ParseError {
    /// The tokens ran out where one was required.
    AbruptEnd,
    /// A token was there, but not one that the production can take.
    Unexpected {
        /// How the offending token reads.
        found: String,
        /// Where the offending token stands in the source.
        position: Position,
        /// The production that rejected the token.
        context: &'static str,
    },
}

/// A parse error as contracts speak of it: the same two cases, with texts as
/// sequences of characters.
pub enum SpecParseError {
    AbruptEnd,
    Unexpected { found: Seq<char>, position: Position, context: Seq<char> },
}

impl View for ParseError {
    type V = SpecParseError;

    open spec fn view(&self) -> SpecParseError {
        match *self {
            ParseError::AbruptEnd => SpecParseError::AbruptEnd,
            ParseError::Unexpected { found, position, context } => SpecParseError::Unexpected {
                found: found@,
                position,
                context: context@,
            },
        }
    }
}

/// The error for `token` rejected by the production named `context`, with
/// `names` the interned names.
pub open spec fn unexpected_token(
    token: Token,
    names: Seq<Seq<char>>,
    context: Seq<char>,
) -> SpecParseError {
    SpecParseError::Unexpected { found: token.kind.text(names), position: token.pos, context }
}

impl ParseError {
    /// The error for a token that reads `found`, stands at `position`, and was
    /// rejected by the production named `context`.
    pub fn unexpected(found: String, position: Position, context: &'static str) -> (error: Self)
        ensures
            error@ == (SpecParseError::Unexpected { found: found@, position, context: context@ }),
    {
        ParseError::Unexpected { found, position, context }
    }
}

impl Clone for ParseError {
    fn clone(&self) -> (copy: Self)
        ensures
            copy@ == self@,
    {
        match self {
            ParseError::AbruptEnd => ParseError::AbruptEnd,
            ParseError::Unexpected { found, position, context } => ParseError::Unexpected {
                found: found.clone(),
                position: *position,
                context: *context,
            },
        }
    }
}

/// What every production returns: a tree fragment, or the first error.
pub type ParseResult = Result<Node, ParseError>;

/// A production's result as contracts speak of it.
pub open spec fn result_view(result: ParseResult) -> Result<Node, SpecParseError> {
    match result {
        Ok(node) => Ok(node),
        Err(error) => Err(error@),
    }
}

} // verus!
