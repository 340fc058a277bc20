//! Statement productions: `while`, `throw`, `return`, and the production that
//! chooses among them.

use vstd::prelude::*;
use vstd::std_specs::convert::IntoSpec;
use crate::context::{AllowAwait, AllowReturn, AllowYield, ParsingContext};
use crate::cursor::{remaining, Cursor};
use crate::error::{ParseError, ParseResult};
use crate::expression::Expression;
use crate::grammar::{return_statement, statement, throw_statement, while_statement, Parsed};
use crate::interner::Interner;
use crate::keyword::Keyword;
use crate::node::Node;
use crate::parser::TokenParser;
use crate::punctuator::Punctuator;
use crate::token::{Token, TokenKind};

verus! {

/// The production for `throw`: the keyword, then on the same line the
/// expression whose value is thrown, then a semicolon if one follows.
///
/// A line terminator, a semicolon or a closing brace directly after the
/// keyword is an error. The production finds it by looking ahead, without
/// taking a token, before it tries the expression: so the error names the
/// token that breaks the rule.
#[derive(Debug, Clone, Copy)]
pub struct ThrowStatement {
    pub allow_yield: AllowYield,
    pub allow_await: AllowAwait,
}

impl ThrowStatement {
    /// The production for the given permissions.
    pub fn new<Y, A>(allow_yield: Y, allow_await: A) -> (production: Self) where
        Y: Into<AllowYield>,
        A: Into<AllowAwait>,

        ensures
            Y::obeys_into_spec() ==> production.allow_yield == allow_yield.into_spec(),
            A::obeys_into_spec() ==> production.allow_await == allow_await.into_spec(),
    {
        Self { allow_yield: allow_yield.into(), allow_await: allow_await.into() }
    }

    /// The production as it stands in `context`.
    pub fn with_context(context: ParsingContext) -> (production: Self)
        ensures
            production.allow_yield == context.allow_yield,
            production.allow_await == context.allow_await,
    {
        Self { allow_yield: context.allow_yield, allow_await: context.allow_await }
    }
}

impl TokenParser for ThrowStatement {
    open spec fn parsed(self, tokens: Seq<Token>, pos: nat, names: Seq<Seq<char>>) -> Parsed {
        throw_statement(tokens, pos, names, self.allow_yield.0, self.allow_await.0)
    }

    fn parse(self, cursor: &mut Cursor<'_>, interner: &mut Interner) -> (result: ParseResult) {
        cursor.expect(TokenKind::Keyword(Keyword::Throw), "throw statement", interner)?;

        if let Some(tok) = cursor.peek(0) {
            match tok.kind {
                TokenKind::LineTerminator
                | TokenKind::Punctuator(Punctuator::Semicolon)
                | TokenKind::Punctuator(Punctuator::CloseBlock) => {
                    return Err(
                        ParseError::unexpected(tok.display(interner), tok.pos, "throw statement"),
                    );
                },
                _ => {},
            }
        }

        let expr = Expression {
            allow_comma: true,
            allow_yield: self.allow_yield,
            allow_await: self.allow_await,
        }.parse(cursor, interner)?;
        if let Some(tok) = cursor.peek(0) {
            if tok.kind == TokenKind::Punctuator(Punctuator::Semicolon) {
                let _ = cursor.next();
            }
        }

        Ok(Node::throw(expr))
    }
}

/// The production for `return`: the keyword alone, or the keyword and on the
/// same line the expression whose value is returned; then a semicolon if one
/// follows.
#[derive(Debug, Clone, Copy)]
pub struct ReturnStatement {
    pub allow_yield: AllowYield,
    pub allow_await: AllowAwait,
}

impl ReturnStatement {
    /// The production for the given permissions.
    pub fn new<Y, A>(allow_yield: Y, allow_await: A) -> (production: Self) where
        Y: Into<AllowYield>,
        A: Into<AllowAwait>,

        ensures
            Y::obeys_into_spec() ==> production.allow_yield == allow_yield.into_spec(),
            A::obeys_into_spec() ==> production.allow_await == allow_await.into_spec(),
    {
        Self { allow_yield: allow_yield.into(), allow_await: allow_await.into() }
    }

    /// The production as it stands in `context`.
    pub fn with_context(context: ParsingContext) -> (production: Self)
        ensures
            production.allow_yield == context.allow_yield,
            production.allow_await == context.allow_await,
    {
        Self { allow_yield: context.allow_yield, allow_await: context.allow_await }
    }
}

impl TokenParser for ReturnStatement {
    open spec fn parsed(self, tokens: Seq<Token>, pos: nat, names: Seq<Seq<char>>) -> Parsed {
        return_statement(tokens, pos, names, self.allow_yield.0, self.allow_await.0)
    }

    fn parse(self, cursor: &mut Cursor<'_>, interner: &mut Interner) -> (result: ParseResult) {
        cursor.expect(TokenKind::Keyword(Keyword::Return), "return statement", interner)?;

        match cursor.peek(0) {
            None => Ok(Node::return_value(None)),
            Some(tok) => match tok.kind {
                TokenKind::Punctuator(Punctuator::Semicolon) => {
                    let _ = cursor.next();
                    Ok(Node::return_value(None))
                },
                TokenKind::LineTerminator | TokenKind::Punctuator(Punctuator::CloseBlock) => Ok(
                    Node::return_value(None),
                ),
                _ => {
                    let expr = Expression {
                        allow_comma: true,
                        allow_yield: self.allow_yield,
                        allow_await: self.allow_await,
                    }.parse(cursor, interner)?;
                    if let Some(tok) = cursor.peek(0) {
                        if tok.kind == TokenKind::Punctuator(Punctuator::Semicolon) {
                            let _ = cursor.next();
                        }
                    }
                    Ok(Node::return_value(Some(expr)))
                },
            },
        }
    }
}

/// The production for `while ( condition ) body`.
///
/// The condition is a full expression, comma form included. The body is one
/// statement under the same three permissions: a loop body is no function
/// boundary, so `return` is allowed in it exactly where it is allowed around
/// it.
#[derive(Debug, Clone, Copy)]
pub struct WhileStatement {
    pub allow_yield: AllowYield,
    pub allow_await: AllowAwait,
    pub allow_return: AllowReturn,
}

impl WhileStatement {
    /// The production for the given permissions.
    pub fn new<Y, A, R>(allow_yield: Y, allow_await: A, allow_return: R) -> (production: Self) where
        Y: Into<AllowYield>,
        A: Into<AllowAwait>,
        R: Into<AllowReturn>,

        ensures
            Y::obeys_into_spec() ==> production.allow_yield == allow_yield.into_spec(),
            A::obeys_into_spec() ==> production.allow_await == allow_await.into_spec(),
            R::obeys_into_spec() ==> production.allow_return == allow_return.into_spec(),
    {
        Self {
            allow_yield: allow_yield.into(),
            allow_await: allow_await.into(),
            allow_return: allow_return.into(),
        }
    }

    /// The production as it stands in `context`.
    pub fn with_context(context: ParsingContext) -> (production: Self)
        ensures
            production.allow_yield == context.allow_yield,
            production.allow_await == context.allow_await,
            production.allow_return == context.allow_return,
    {
        Self {
            allow_yield: context.allow_yield,
            allow_await: context.allow_await,
            allow_return: context.allow_return,
        }
    }
}

impl TokenParser for WhileStatement {
    open spec fn parsed(self, tokens: Seq<Token>, pos: nat, names: Seq<Seq<char>>) -> Parsed {
        while_statement(
            tokens,
            pos,
            names,
            self.allow_yield.0,
            self.allow_await.0,
            self.allow_return.0,
        )
    }

    fn parse(self, cursor: &mut Cursor<'_>, interner: &mut Interner) -> (result: ParseResult)
        decreases remaining(old(cursor).tokens(), old(cursor).position()), 0nat,
    {
        cursor.expect(TokenKind::Keyword(Keyword::While), "while statement", interner)?;
        cursor.expect(TokenKind::Punctuator(Punctuator::OpenParen), "while statement", interner)?;

        let cond = Expression {
            allow_comma: true,
            allow_yield: self.allow_yield,
            allow_await: self.allow_await,
        }.parse(cursor, interner)?;

        cursor.expect(TokenKind::Punctuator(Punctuator::CloseParen), "while statement", interner)?;

        let body = Statement {
            allow_yield: self.allow_yield,
            allow_await: self.allow_await,
            allow_return: self.allow_return,
        }.parse(cursor, interner)?;

        Ok(Node::while_loop(cond, body))
    }
}

/// The production for one statement. It looks at the first token and hands
/// over to the production that the token calls for.
#[derive(Debug, Clone, Copy)]
pub struct Statement {
    pub allow_yield: AllowYield,
    pub allow_await: AllowAwait,
    pub allow_return: AllowReturn,
}

impl Statement {
    /// The production for the given permissions.
    pub fn new<Y, A, R>(allow_yield: Y, allow_await: A, allow_return: R) -> (production: Self) where
        Y: Into<AllowYield>,
        A: Into<AllowAwait>,
        R: Into<AllowReturn>,

        ensures
            Y::obeys_into_spec() ==> production.allow_yield == allow_yield.into_spec(),
            A::obeys_into_spec() ==> production.allow_await == allow_await.into_spec(),
            R::obeys_into_spec() ==> production.allow_return == allow_return.into_spec(),
    {
        Self {
            allow_yield: allow_yield.into(),
            allow_await: allow_await.into(),
            allow_return: allow_return.into(),
        }
    }

    /// The production as it stands in `context`.
    pub fn with_context(context: ParsingContext) -> (production: Self)
        ensures
            production.allow_yield == context.allow_yield,
            production.allow_await == context.allow_await,
            production.allow_return == context.allow_return,
    {
        Self {
            allow_yield: context.allow_yield,
            allow_await: context.allow_await,
            allow_return: context.allow_return,
        }
    }
}

impl TokenParser for Statement {
    open spec fn parsed(self, tokens: Seq<Token>, pos: nat, names: Seq<Seq<char>>) -> Parsed {
        statement(
            tokens,
            pos,
            names,
            self.allow_yield.0,
            self.allow_await.0,
            self.allow_return.0,
        )
    }

    fn parse(self, cursor: &mut Cursor<'_>, interner: &mut Interner) -> (result: ParseResult)
        decreases remaining(old(cursor).tokens(), old(cursor).position()), 1nat,
    {
        let tok = cursor.peek(0).ok_or(ParseError::AbruptEnd)?;
        match tok.kind {
            TokenKind::Keyword(Keyword::While) => WhileStatement {
                allow_yield: self.allow_yield,
                allow_await: self.allow_await,
                allow_return: self.allow_return,
            }.parse(cursor, interner),
            TokenKind::Keyword(Keyword::Throw) => ThrowStatement {
                allow_yield: self.allow_yield,
                allow_await: self.allow_await,
            }.parse(cursor, interner),
            TokenKind::Keyword(Keyword::Return) => if self.allow_return.0 {
                ReturnStatement {
                    allow_yield: self.allow_yield,
                    allow_await: self.allow_await,
                }.parse(cursor, interner)
            } else {
                Err(ParseError::unexpected(tok.display(interner), tok.pos, "statement"))
            },
            TokenKind::Punctuator(Punctuator::Semicolon) => {
                let _ = cursor.next();
                Ok(Node::Empty)
            },
            _ => {
                let expr = Expression {
                    allow_comma: true,
                    allow_yield: self.allow_yield,
                    allow_await: self.allow_await,
                }.parse(cursor, interner)?;
                if let Some(tok) = cursor.peek(0) {
                    if tok.kind == TokenKind::Punctuator(Punctuator::Semicolon) {
                        let _ = cursor.next();
                    }
                }
                Ok(expr)
            },
        }
    }
}

} // verus!
