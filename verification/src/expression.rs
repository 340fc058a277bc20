//! Expression productions: the tier of the prefix operators, the tier below
//! it, and the top tier with its comma form.

use vstd::prelude::*;
use vstd::std_specs::convert::IntoSpec;
use crate::context::{AllowAwait, AllowYield, ParsingContext};
use crate::cursor::{remaining, Cursor};
use crate::error::{ParseError, ParseResult};
use crate::grammar::{
    after, comma_sequence, expression, primary, unary_expression, unary_operator,
    update_expression, Parsed,
};
use crate::interner::{Interner, Sym};
use crate::keyword::Keyword;
use crate::node::{Const, Node};
use crate::op::UnaryOp;
use crate::parser::TokenParser;
use crate::punctuator::Punctuator;
use crate::token::{Token, TokenKind};

verus! {

/// The prefix operator that a token of kind `kind` denotes, if any.
pub fn unary_operator_of(kind: TokenKind) -> (op: Option<UnaryOp>)
    ensures
        op == unary_operator(kind),
{
    match kind {
        TokenKind::Keyword(Keyword::Delete) => Some(UnaryOp::Delete),
        TokenKind::Keyword(Keyword::Void) => Some(UnaryOp::Void),
        TokenKind::Keyword(Keyword::TypeOf) => Some(UnaryOp::TypeOf),
        TokenKind::Punctuator(Punctuator::Add) => Some(UnaryOp::Plus),
        TokenKind::Punctuator(Punctuator::Sub) => Some(UnaryOp::Minus),
        TokenKind::Punctuator(Punctuator::Neg) => Some(UnaryOp::Tilde),
        TokenKind::Punctuator(Punctuator::Not) => Some(UnaryOp::Not),
        _ => None,
    }
}

/// The primary expression that a single token of kind `kind` forms, if any.
pub fn primary_of(kind: TokenKind, allow_yield: AllowYield, allow_await: AllowAwait) -> (node:
    Option<Node>)
    ensures
        node == primary(kind, allow_yield.0, allow_await.0),
{
    match kind {
        TokenKind::Identifier(sym) => Some(Node::Identifier(sym)),
        TokenKind::Keyword(Keyword::Yield) => if allow_yield.0 {
            None
        } else {
            Some(Node::Identifier(Sym::of_yield()))
        },
        TokenKind::Keyword(Keyword::Await) => if allow_await.0 {
            None
        } else {
            Some(Node::Identifier(Sym::of_await()))
        },
        TokenKind::Keyword(Keyword::This) => Some(Node::This),
        TokenKind::BooleanLiteral(value) => Some(Node::Const(Const::Bool(value))),
        TokenKind::NullLiteral => Some(Node::Const(Const::Null)),
        TokenKind::NumericLiteral(sym) => Some(Node::Const(Const::Num(sym))),
        TokenKind::StringLiteral(sym) => Some(Node::Const(Const::String(sym))),
        _ => None,
    }
}

/// The production below the prefix operators. This grammar has no increment
/// or decrement, so the tier comes down to one token that forms a primary
/// expression: a name, `this` or a literal.
#[derive(Debug, Clone, Copy)]
pub struct UpdateExpression {
    pub allow_yield: AllowYield,
    pub allow_await: AllowAwait,
}

impl UpdateExpression {
    /// The production for the given permissions.
    pub fn new<Y, A>(allow_yield: Y, allow_await: A) -> (production: Self) where
        Y: Into<AllowYield>,
        A: Into<AllowAwait>,

        ensures
            Y::obeys_into_spec() ==> production.allow_yield == allow_yield.into_spec(),
            A::obeys_into_spec() ==> production.allow_await == allow_await.into_spec(),
    {
        Self { allow_yield: allow_yield.into(), allow_await: allow_await.into() }
    }

    /// The production as it stands in `context`.
    pub fn with_context(context: ParsingContext) -> (production: Self)
        ensures
            production.allow_yield == context.allow_yield,
            production.allow_await == context.allow_await,
    {
        Self { allow_yield: context.allow_yield, allow_await: context.allow_await }
    }
}

impl TokenParser for UpdateExpression {
    open spec fn parsed(self, tokens: Seq<Token>, pos: nat, names: Seq<Seq<char>>) -> Parsed {
        update_expression(tokens, pos, names, self.allow_yield.0, self.allow_await.0)
    }

    fn parse(self, cursor: &mut Cursor<'_>, interner: &mut Interner) -> (result: ParseResult) {
        let tok = cursor.next().ok_or(ParseError::AbruptEnd)?;
        match primary_of(tok.kind, self.allow_yield, self.allow_await) {
            Some(node) => Ok(node),
            None => {
                cursor.back();
                Err(ParseError::unexpected(tok.display(interner), tok.pos, "primary expression"))
            },
        }
    }
}

/// The production for prefix operators: `delete`, `void`, `typeof`, `+`, `-`,
/// `~` and `!`, each applied to another expression of this same tier.
///
/// Each operator in a row costs one level of the call stack, so the depth of
/// nesting that can be parsed is bounded by the stack of the machine.
#[derive(Debug, Clone, Copy)]
pub struct UnaryExpression {
    pub allow_yield: AllowYield,
    pub allow_await: AllowAwait,
}

impl UnaryExpression {
    /// The production for the given permissions.
    pub fn new<Y, A>(allow_yield: Y, allow_await: A) -> (production: Self) where
        Y: Into<AllowYield>,
        A: Into<AllowAwait>,

        ensures
            Y::obeys_into_spec() ==> production.allow_yield == allow_yield.into_spec(),
            A::obeys_into_spec() ==> production.allow_await == allow_await.into_spec(),
    {
        Self { allow_yield: allow_yield.into(), allow_await: allow_await.into() }
    }

    /// The production as it stands in `context`.
    pub fn with_context(context: ParsingContext) -> (production: Self)
        ensures
            production.allow_yield == context.allow_yield,
            production.allow_await == context.allow_await,
    {
        Self { allow_yield: context.allow_yield, allow_await: context.allow_await }
    }
}

impl TokenParser for UnaryExpression {
    open spec fn parsed(self, tokens: Seq<Token>, pos: nat, names: Seq<Seq<char>>) -> Parsed {
        unary_expression(tokens, pos, names, self.allow_yield.0, self.allow_await.0)
    }

    fn parse(self, cursor: &mut Cursor<'_>, interner: &mut Interner) -> (result: ParseResult)
        decreases remaining(old(cursor).tokens(), old(cursor).position()),
    {
        let tok = cursor.next().ok_or(ParseError::AbruptEnd)?;
        match unary_operator_of(tok.kind) {
            Some(op) => Ok(Node::unary_op(op, self.parse(cursor, interner)?)),
            None => {
                cursor.back();
                UpdateExpression { allow_yield: self.allow_yield, allow_await: self.allow_await }
                    .parse(cursor, interner)
            },
        }
    }
}

/// The top production for expressions. With `allow_comma` it takes a whole
/// comma expression; without, a single operand, and a comma after it stays
/// for the caller.
#[derive(Debug, Clone, Copy)]
pub struct Expression {
    pub allow_comma: bool,
    pub allow_yield: AllowYield,
    pub allow_await: AllowAwait,
}

impl Expression {
    /// The production for the given permissions.
    pub fn new<Y, A>(allow_comma: bool, allow_yield: Y, allow_await: A) -> (production: Self) where
        Y: Into<AllowYield>,
        A: Into<AllowAwait>,

        ensures
            production.allow_comma == allow_comma,
            Y::obeys_into_spec() ==> production.allow_yield == allow_yield.into_spec(),
            A::obeys_into_spec() ==> production.allow_await == allow_await.into_spec(),
    {
        Self { allow_comma, allow_yield: allow_yield.into(), allow_await: allow_await.into() }
    }

    /// The production as it stands in `context`.
    pub fn with_context(allow_comma: bool, context: ParsingContext) -> (production: Self)
        ensures
            production.allow_comma == allow_comma,
            production.allow_yield == context.allow_yield,
            production.allow_await == context.allow_await,
    {
        Self { allow_comma, allow_yield: context.allow_yield, allow_await: context.allow_await }
    }
}

impl TokenParser for Expression {
    open spec fn parsed(self, tokens: Seq<Token>, pos: nat, names: Seq<Seq<char>>) -> Parsed {
        expression(
            tokens,
            pos,
            names,
            self.allow_comma,
            self.allow_yield.0,
            self.allow_await.0,
        )
    }

    fn parse(self, cursor: &mut Cursor<'_>, interner: &mut Interner) -> (result: ParseResult) {
        let ghost tokens = cursor.tokens();
        let ghost start = cursor.position();
        let ghost moves = cursor.moves();
        let ghost names = interner@;
        let operand = UnaryExpression { allow_yield: self.allow_yield, allow_await: self.allow_await };
        let mut left = operand.parse(cursor, interner)?;
        if !self.allow_comma {
            return Ok(left);
        }
        loop
            invariant
                tokens == old(cursor).tokens(),
                start == old(cursor).position(),
                moves == old(cursor).moves(),
                names == old(interner)@,
                cursor.wf(),
                cursor.tokens() == tokens,
                moves.is_prefix_of(cursor.moves()),
                *interner == *old(interner),
                self.allow_comma,
                operand.allow_yield == self.allow_yield,
                operand.allow_await == self.allow_await,
                cursor.position() >= start,
                self.parsed(tokens, start, names) == after(
                    (cursor.position() - start) as nat,
                    comma_sequence(
                        tokens,
                        cursor.position(),
                        names,
                        self.allow_yield.0,
                        self.allow_await.0,
                        left,
                    ),
                ),
            decreases remaining(tokens, cursor.position()),
        {
            match cursor.peek(0) {
                Some(Token { kind: TokenKind::Punctuator(Punctuator::Comma), .. }) => {
                    let _ = cursor.next();
                    let right = operand.parse(cursor, interner)?;
                    left = Node::comma(left, right);
                },
                _ => {
                    return Ok(left);
                },
            }
        }
    }
}

} // verus!
