//! The cursor: a read position in a buffer of tokens, with lookahead and a
//! rewind of one token.

use vstd::prelude::*;
use crate::error::{unexpected_token, ParseError, SpecParseError};
use crate::interner::Interner;
use crate::token::{Token, TokenKind};

verus! {

/// The token at `pos`, if `tokens` reaches that far.
pub open spec fn token_at(tokens: Seq<Token>, pos: nat) -> Option<Token> {
    if pos < tokens.len() {
        Some(tokens[pos as int])
    } else {
        None
    }
}

/// How many tokens stand at or after `pos`.
pub open spec fn remaining(tokens: Seq<Token>, pos: nat) -> nat {
    if pos < tokens.len() {
        (tokens.len() - pos) as nat
    } else {
        0
    }
}

/// One movement of a cursor.
pub enum CursorMove {
    /// `next` took a token.
    Forward,
    /// `back` returned the token taken last.
    Backward,
}

/// Movement `i` of `moves` is a rewind.
pub open spec fn rewound_at(moves: Seq<CursorMove>, i: int) -> bool {
    0 <= i < moves.len() && moves[i] is Backward
}

/// Movement `i` of `moves` is a step forward.
pub open spec fn advanced_at(moves: Seq<CursorMove>, i: int) -> bool {
    0 <= i < moves.len() && moves[i] is Forward
}

/// Every rewind in `moves` comes directly after a step forward.
pub open spec fn single_step_rewinds(moves: Seq<CursorMove>) -> bool {
    forall|i: int| #[trigger] rewound_at(moves, i) ==> advanced_at(moves, i - 1)
}

/// The last movement in `moves` was a step forward.
pub open spec fn just_advanced(moves: Seq<CursorMove>) -> bool {
    moves.len() > 0 && moves.last() is Forward
}

/// What `Cursor::expect` yields at `pos`: the token there if it is of kind
/// `kind`, else the error tagged with `context`.
pub open spec fn expectation(
    tokens: Seq<Token>,
    pos: nat,
    names: Seq<Seq<char>>,
    kind: TokenKind,
    context: Seq<char>,
) -> Result<Token, SpecParseError> {
    match token_at(tokens, pos) {
        None => Err(SpecParseError::AbruptEnd),
        Some(token) => if token.kind == kind {
            Ok(token)
        } else {
            Err(unexpected_token(token, names, context))
        },
    }
}

/// A read position in a token buffer. The cursor borrows the buffer; it never
/// owns or changes a token.
///
/// Besides the position, a cursor carries a record of its movements, which
/// exists only for the proofs. `back` may be called only directly after a
/// `next` that took a token, so the record never holds two rewinds in a row.
pub struct Cursor<'a> {
    tokens: &'a [Token],
    position: usize,
    moves: Ghost<Seq<CursorMove>>,
}

impl<'a> Cursor<'a> {
    /// The buffer that the cursor reads.
    pub closed spec fn tokens(&self) -> Seq<Token> {
        self.tokens@
    }

    /// The index of the token that `next` would take.
    pub closed spec fn position(&self) -> nat {
        self.position as nat
    }

    /// Every movement made so far, oldest first.
    pub closed spec fn moves(&self) -> Seq<CursorMove> {
        self.moves@
    }

    /// The position lies within the buffer or at its end, and the movements
    /// obey the rule of the single rewind.
    pub open spec fn wf(&self) -> bool {
        &&& self.position() <= self.tokens().len()
        &&& single_step_rewinds(self.moves())
        &&& just_advanced(self.moves()) ==> self.position() > 0
    }

    /// A cursor at the start of `tokens`.
    pub fn new(tokens: &'a [Token]) -> (cursor: Self)
        ensures
            cursor.wf(),
            cursor.tokens() == tokens@,
            cursor.position() == 0,
            cursor.moves() == Seq::<CursorMove>::empty(),
    {
        Cursor { tokens, position: 0, moves: Ghost(Seq::empty()) }
    }

    /// The index of the token that `next` would take.
    pub fn pos(&self) -> (position: usize)
        ensures
            position == self.position(),
    {
        self.position
    }

    /// The token `skip` places after the current one, without moving.
    pub fn peek(&self, skip: usize) -> (token: Option<Token>)
        requires
            self.wf(),
        ensures
            token == token_at(self.tokens(), self.position() + skip as nat),
    {
        let rest = self.tokens.len() - self.position;
        if skip < rest {
            Some(self.tokens[self.position + skip])
        } else {
            None
        }
    }

    /// Takes the current token and moves past it. At the end of the buffer
    /// nothing is taken and the cursor stays as it is.
    pub fn next(&mut self) -> (token: Option<Token>)
        requires
            old(self).wf(),
        ensures
            final(self).wf(),
            final(self).tokens() == old(self).tokens(),
            token == token_at(old(self).tokens(), old(self).position()),
            token is Some ==> {
                &&& final(self).position() == old(self).position() + 1
                &&& final(self).moves() == old(self).moves().push(CursorMove::Forward)
            },
            token is None ==> {
                &&& final(self).position() == old(self).position()
                &&& final(self).moves() == old(self).moves()
            },
    {
        if self.position < self.tokens.len() {
            let token = self.tokens[self.position];
            self.position = self.position + 1;
            self.moves = Ghost(self.moves@.push(CursorMove::Forward));
            proof {
                assert forall|i: int| #[trigger] rewound_at(self.moves(), i) implies advanced_at(
                    self.moves(),
                    i - 1,
                ) by {
                    assert(rewound_at(old(self).moves(), i));
                }
            }
            Some(token)
        } else {
            None
        }
    }

    /// Returns the token that `next` took last, by moving back one place.
    ///
    /// It may be called only directly after a `next` that took a token: a
    /// second call without another `next` in between is not possible.
    pub fn back(&mut self)
        requires
            old(self).wf(),
            just_advanced(old(self).moves()),
        ensures
            final(self).wf(),
            final(self).tokens() == old(self).tokens(),
            final(self).position() == old(self).position() - 1,
            final(self).moves() == old(self).moves().push(CursorMove::Backward),
            !just_advanced(final(self).moves()),
    {
        self.position = self.position - 1;
        self.moves = Ghost(self.moves@.push(CursorMove::Backward));
        proof {
            assert forall|i: int| #[trigger] rewound_at(self.moves(), i) implies advanced_at(
                self.moves(),
                i - 1,
            ) by {
                if i < old(self).moves().len() {
                    assert(rewound_at(old(self).moves(), i));
                }
            }
        }
    }

    /// Takes the current token if it is of kind `kind`.
    ///
    /// At the end of the buffer the error is `AbruptEnd`. A token of another
    /// kind gives `Unexpected`, tagged with `context`, and is not consumed:
    /// the cursor stands where it stood.
    pub fn expect(&mut self, kind: TokenKind, context: &'static str, interner: &mut Interner) -> (result:
        Result<Token, ParseError>)
        requires
            old(self).wf(),
        ensures
            final(self).wf(),
            final(self).tokens() == old(self).tokens(),
            *final(interner) == *old(interner),
            old(self).moves().is_prefix_of(final(self).moves()),
            match result {
                Ok(token) => {
                    &&& expectation(
                        old(self).tokens(),
                        old(self).position(),
                        old(interner)@,
                        kind,
                        context@,
                    ) == Ok::<Token, SpecParseError>(token)
                    &&& final(self).position() == old(self).position() + 1
                    &&& just_advanced(final(self).moves())
                },
                Err(error) => {
                    &&& expectation(
                        old(self).tokens(),
                        old(self).position(),
                        old(interner)@,
                        kind,
                        context@,
                    ) == Err::<Token, SpecParseError>(error@)
                    &&& final(self).position() == old(self).position()
                },
            },
    {
        match self.next() {
            None => Err(ParseError::AbruptEnd),
            Some(token) => {
                if token.kind == kind {
                    Ok(token)
                } else {
                    self.back();
                    Err(ParseError::unexpected(token.display(interner), token.pos, context))
                }
            },
        }
    }
}

} // verus!
