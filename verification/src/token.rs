//! Tokens: what the tokenizer hands to the parser.

use vstd::prelude::*;
use vstd::string::StringExecFns;
use crate::interner::{Interner, Sym};
use crate::keyword::Keyword;
use crate::position::Position;
use crate::punctuator::Punctuator;

verus! {

/// What a token is. A line terminator is a kind of its own, because some
/// productions must see where a line ends.
#[derive(Clone, Copy, Debug, PartialEq, Eq, Structural)]
pub enum TokenKind {
    /// `true` or `false`.
    BooleanLiteral(bool),
    /// The end of the source text.
    EOF,
    /// A name, interned.
    Identifier(Sym),
    /// A reserved word.
    Keyword(Keyword),
    /// The end of a line.
    LineTerminator,
    /// `null`.
    NullLiteral,
    /// A number, carried as its interned source text.
    NumericLiteral(Sym),
    /// An operator or delimiter.
    Punctuator(Punctuator),
    /// A string, interned.
    StringLiteral(Sym),
}

impl TokenKind {
    /// How the token reads in a diagnostic, given the interned names.
    pub open spec fn text(self, names: Seq<Seq<char>>) -> Seq<char> {
        match self {
            TokenKind::BooleanLiteral(value) => if value {
                "true"@
            } else {
                "false"@
            },
            TokenKind::EOF => "end of file"@,
            TokenKind::Identifier(sym) => sym.text(names),
            TokenKind::Keyword(keyword) => keyword.text(),
            TokenKind::LineTerminator => "line terminator"@,
            TokenKind::NullLiteral => "null"@,
            TokenKind::NumericLiteral(sym) => sym.text(names),
            TokenKind::Punctuator(punctuator) => punctuator.text(),
            TokenKind::StringLiteral(sym) => sym.text(names),
        }
    }

    /// How the token reads in a diagnostic. A symbol that `interner` does not
    /// hold reads as the empty string.
    pub fn display(self, interner: &Interner) -> (shown: String)
        ensures
            shown@ == self.text(interner@),
    {
        match self {
            TokenKind::BooleanLiteral(value) => if value {
                String::from_str("true")
            } else {
                String::from_str("false")
            },
            TokenKind::EOF => String::from_str("end of file"),
            TokenKind::Keyword(keyword) => String::from_str(keyword.as_str()),
            TokenKind::LineTerminator => String::from_str("line terminator"),
            TokenKind::NullLiteral => String::from_str("null"),
            TokenKind::Punctuator(punctuator) => String::from_str(punctuator.as_str()),
            TokenKind::Identifier(sym) | TokenKind::NumericLiteral(sym) | TokenKind::StringLiteral(
                sym,
            ) => match interner.resolve(sym) {
                Some(name) => String::from_str(name),
                None => String::new(),
            },
        }
    }
}

impl From<Keyword> for TokenKind {
    fn from(keyword: Keyword) -> (kind: Self) {
        TokenKind::Keyword(keyword)
    }
}

impl vstd::std_specs::convert::FromSpecImpl<Keyword> for TokenKind {
    open spec fn obeys_from_spec() -> bool {
        true
    }

    open spec fn from_spec(keyword: Keyword) -> Self {
        TokenKind::Keyword(keyword)
    }
}

impl From<Punctuator> for TokenKind {
    fn from(punctuator: Punctuator) -> (kind: Self) {
        TokenKind::Punctuator(punctuator)
    }
}

impl vstd::std_specs::convert::FromSpecImpl<Punctuator> for TokenKind {
    open spec fn obeys_from_spec() -> bool {
        true
    }

    open spec fn from_spec(punctuator: Punctuator) -> Self {
        TokenKind::Punctuator(punctuator)
    }
}

/// One token: its kind and where it stands in the source.
#[derive(Clone, Copy, Debug, PartialEq, Eq, Structural)]
pub struct Token {
    pub kind: TokenKind,
    pub pos: Position,
}

impl Token {
    /// A token of the given kind at the given place.
    pub fn new(kind: TokenKind, pos: Position) -> (token: Self)
        ensures
            token == (Token { kind, pos }),
    {
        Token { kind, pos }
    }

    /// How the token reads in a diagnostic.
    pub fn display(&self, interner: &Interner) -> (shown: String)
        ensures
            shown@ == self.kind.text(interner@),
    {
        self.kind.display(interner)
    }
}

} // verus!
