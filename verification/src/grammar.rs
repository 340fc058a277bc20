//! The grammar, as mathematical functions from a token sequence and a start
//! position to what a production yields there. The executable productions
//! are proved to compute exactly these functions.

use vstd::prelude::*;
use crate::cursor::{expectation, remaining, token_at};
use crate::error::{unexpected_token, SpecParseError};
use crate::interner::Sym;
use crate::keyword::Keyword;
use crate::node::{Const, Node};
use crate::op::UnaryOp;
use crate::punctuator::Punctuator;
use crate::token::{Token, TokenKind};

verus! {

/// What a production yields: a tree fragment or the first error, and how many
/// tokens the cursor has moved past when the production returns.
pub struct Parsed {
    pub result: Result<Node, SpecParseError>,
    pub consumed: nat,
}

/// Success with `node`, `consumed` tokens taken.
pub open spec fn accepted(node: Node, consumed: nat) -> Parsed {
    Parsed { result: Ok(node), consumed }
}

/// Failure with `error`, the cursor `consumed` tokens past the start.
pub open spec fn rejected(error: SpecParseError, consumed: nat) -> Parsed {
    Parsed { result: Err(error), consumed }
}

/// `inner`, as seen from a production that took `before` tokens ahead of it.
pub open spec fn after(before: nat, inner: Parsed) -> Parsed {
    Parsed { result: inner.result, consumed: before + inner.consumed }
}

/// The prefix operator that a token of kind `kind` denotes, if any.
pub open spec fn unary_operator(kind: TokenKind) -> Option<UnaryOp> {
    match kind {
        TokenKind::Keyword(Keyword::Delete) => Some(UnaryOp::Delete),
        TokenKind::Keyword(Keyword::Void) => Some(UnaryOp::Void),
        TokenKind::Keyword(Keyword::TypeOf) => Some(UnaryOp::TypeOf),
        TokenKind::Punctuator(Punctuator::Add) => Some(UnaryOp::Plus),
        TokenKind::Punctuator(Punctuator::Sub) => Some(UnaryOp::Minus),
        TokenKind::Punctuator(Punctuator::Neg) => Some(UnaryOp::Tilde),
        TokenKind::Punctuator(Punctuator::Not) => Some(UnaryOp::Not),
        _ => None,
    }
}

/// The primary expression that a single token of kind `kind` forms, if any.
///
/// `yield` and `await` are ordinary names exactly where the context does not
/// make them operators.
pub open spec fn primary(kind: TokenKind, allow_yield: bool, allow_await: bool) -> Option<Node> {
    match kind {
        TokenKind::Identifier(sym) => Some(Node::Identifier(sym)),
        TokenKind::Keyword(Keyword::Yield) => if allow_yield {
            None
        } else {
            Some(Node::Identifier(Sym::spec_yield()))
        },
        TokenKind::Keyword(Keyword::Await) => if allow_await {
            None
        } else {
            Some(Node::Identifier(Sym::spec_await()))
        },
        TokenKind::Keyword(Keyword::This) => Some(Node::This),
        TokenKind::BooleanLiteral(value) => Some(Node::Const(Const::Bool(value))),
        TokenKind::NullLiteral => Some(Node::Const(Const::Null)),
        TokenKind::NumericLiteral(sym) => Some(Node::Const(Const::Num(sym))),
        TokenKind::StringLiteral(sym) => Some(Node::Const(Const::String(sym))),
        _ => None,
    }
}

/// The tier below the prefix operators: one token that forms a primary
/// expression. Any other token is rejected, unconsumed, in the name of
/// "primary expression".
pub open spec fn update_expression(
    tokens: Seq<Token>,
    pos: nat,
    names: Seq<Seq<char>>,
    allow_yield: bool,
    allow_await: bool,
) -> Parsed {
    match token_at(tokens, pos) {
        None => rejected(SpecParseError::AbruptEnd, 0),
        Some(token) => match primary(token.kind, allow_yield, allow_await) {
            Some(node) => accepted(node, 1),
            None => rejected(unexpected_token(token, names, "primary expression"@), 0),
        },
    }
}

/// `op` applied to what `operand` yields, one token further on.
pub open spec fn applied(op: UnaryOp, operand: Parsed) -> Parsed {
    Parsed {
        result: match operand.result {
            Ok(node) => Ok(Node::UnaryOp { op, operand: Box::new(node) }),
            Err(error) => Err(error),
        },
        consumed: 1 + operand.consumed,
    }
}

/// The tier of the prefix operators: an operator token followed by this same
/// tier, or else whatever the tier below yields at the same place.
pub open spec fn unary_expression(
    tokens: Seq<Token>,
    pos: nat,
    names: Seq<Seq<char>>,
    allow_yield: bool,
    allow_await: bool,
) -> Parsed
    decreases remaining(tokens, pos),
{
    match token_at(tokens, pos) {
        None => rejected(SpecParseError::AbruptEnd, 0),
        Some(token) => match unary_operator(token.kind) {
            Some(op) => applied(
                op,
                unary_expression(tokens, pos + 1, names, allow_yield, allow_await),
            ),
            None => update_expression(tokens, pos, names, allow_yield, allow_await),
        },
    }
}

/// The token at `pos` is of kind `kind`.
pub open spec fn kind_at(tokens: Seq<Token>, pos: nat, kind: TokenKind) -> bool {
    token_at(tokens, pos) matches Some(token) && token.kind == kind
}

/// The rest of a comma expression whose operands so far make up `left`: as
/// long as a comma follows, one more operand joins on the right.
pub open spec fn comma_sequence(
    tokens: Seq<Token>,
    pos: nat,
    names: Seq<Seq<char>>,
    allow_yield: bool,
    allow_await: bool,
    left: Node,
) -> Parsed
    decreases remaining(tokens, pos),
{
    if kind_at(tokens, pos, TokenKind::Punctuator(Punctuator::Comma)) {
        let right = unary_expression(tokens, pos + 1, names, allow_yield, allow_await);
        match right.result {
            Err(error) => rejected(error, 1 + right.consumed),
            Ok(node) => after(
                1 + right.consumed,
                comma_sequence(
                    tokens,
                    pos + 1 + right.consumed,
                    names,
                    allow_yield,
                    allow_await,
                    Node::Comma { left: Box::new(left), right: Box::new(node) },
                ),
            ),
        }
    } else {
        accepted(left, 0)
    }
}

/// The top tier of expressions: one operand, and with `allow_comma` any
/// number of further operands, each after a comma, joined to the left.
pub open spec fn expression(
    tokens: Seq<Token>,
    pos: nat,
    names: Seq<Seq<char>>,
    allow_comma: bool,
    allow_yield: bool,
    allow_await: bool,
) -> Parsed {
    let first = unary_expression(tokens, pos, names, allow_yield, allow_await);
    match first.result {
        Err(error) => first,
        Ok(node) => if allow_comma {
            after(
                first.consumed,
                comma_sequence(
                    tokens,
                    pos + first.consumed,
                    names,
                    allow_yield,
                    allow_await,
                    node,
                ),
            )
        } else {
            first
        },
    }
}

/// How many tokens an optional semicolon at `pos` takes: one if it is there.
pub open spec fn optional_semicolon(tokens: Seq<Token>, pos: nat) -> nat {
    if kind_at(tokens, pos, TokenKind::Punctuator(Punctuator::Semicolon)) {
        1
    } else {
        0
    }
}

/// A token of kind `kind` cannot follow `throw`: it would leave the
/// statement without a value on the same line.
pub open spec fn forbidden_after_throw(kind: TokenKind) -> bool {
    ||| kind == TokenKind::LineTerminator
    ||| kind == TokenKind::Punctuator(Punctuator::Semicolon)
    ||| kind == TokenKind::Punctuator(Punctuator::CloseBlock)
}

/// What follows the keyword of a `throw` or `return` that has a value: an
/// expression starting at `pos`, and a semicolon if one follows.
pub open spec fn statement_value(
    tokens: Seq<Token>,
    pos: nat,
    names: Seq<Seq<char>>,
    allow_yield: bool,
    allow_await: bool,
) -> Parsed {
    let value = expression(tokens, pos, names, true, allow_yield, allow_await);
    match value.result {
        Err(error) => value,
        Ok(node) => accepted(
            node,
            value.consumed + optional_semicolon(tokens, pos + value.consumed),
        ),
    }
}

/// `inner` with its node, if any, made the value of a `throw`.
pub open spec fn thrown(inner: Parsed) -> Parsed {
    Parsed {
        result: match inner.result {
            Ok(node) => Ok(Node::Throw { expression: Box::new(node) }),
            Err(error) => Err(error),
        },
        consumed: inner.consumed,
    }
}

/// `throw`, an expression on the same line, and a semicolon if one follows.
pub open spec fn throw_statement(
    tokens: Seq<Token>,
    pos: nat,
    names: Seq<Seq<char>>,
    allow_yield: bool,
    allow_await: bool,
) -> Parsed {
    let value = after(1, thrown(statement_value(tokens, pos + 1, names, allow_yield, allow_await)));
    match expectation(
        tokens,
        pos,
        names,
        TokenKind::Keyword(Keyword::Throw),
        "throw statement"@,
    ) {
        Err(error) => rejected(error, 0),
        Ok(_) => match token_at(tokens, pos + 1) {
            None => value,
            Some(token) => if forbidden_after_throw(token.kind) {
                rejected(unexpected_token(token, names, "throw statement"@), 1)
            } else {
                value
            },
        },
    }
}

/// A token of kind `kind` after `return` ends the statement without a value
/// and stays where it is.
pub open spec fn ends_bare_return(kind: TokenKind) -> bool {
    ||| kind == TokenKind::LineTerminator
    ||| kind == TokenKind::Punctuator(Punctuator::CloseBlock)
}

/// `inner` with its node, if any, made the value of a `return`.
pub open spec fn returned(inner: Parsed) -> Parsed {
    Parsed {
        result: match inner.result {
            Ok(node) => Ok(Node::Return { value: Some(Box::new(node)) }),
            Err(error) => Err(error),
        },
        consumed: inner.consumed,
    }
}

/// `return`, alone or with an expression on the same line, and a semicolon
/// if one follows.
pub open spec fn return_statement(
    tokens: Seq<Token>,
    pos: nat,
    names: Seq<Seq<char>>,
    allow_yield: bool,
    allow_await: bool,
) -> Parsed {
    match expectation(
        tokens,
        pos,
        names,
        TokenKind::Keyword(Keyword::Return),
        "return statement"@,
    ) {
        Err(error) => rejected(error, 0),
        Ok(_) => match token_at(tokens, pos + 1) {
            None => accepted(Node::Return { value: None }, 1),
            Some(token) => if token.kind == TokenKind::Punctuator(Punctuator::Semicolon) {
                accepted(Node::Return { value: None }, 2)
            } else if ends_bare_return(token.kind) {
                accepted(Node::Return { value: None }, 1)
            } else {
                after(
                    1,
                    returned(statement_value(tokens, pos + 1, names, allow_yield, allow_await)),
                )
            },
        },
    }
}

/// `while`, `(`, a condition, `)`, and one statement as the body.
pub open spec fn while_statement(
    tokens: Seq<Token>,
    pos: nat,
    names: Seq<Seq<char>>,
    allow_yield: bool,
    allow_await: bool,
    allow_return: bool,
) -> Parsed
    decreases remaining(tokens, pos), 0nat,
{
    let context = "while statement"@;
    match expectation(tokens, pos, names, TokenKind::Keyword(Keyword::While), context) {
        Err(error) => rejected(error, 0),
        Ok(_) => match expectation(
            tokens,
            pos + 1,
            names,
            TokenKind::Punctuator(Punctuator::OpenParen),
            context,
        ) {
            Err(error) => rejected(error, 1),
            Ok(_) => {
                let condition = expression(tokens, pos + 2, names, true, allow_yield, allow_await);
                let close = pos + 2 + condition.consumed;
                match condition.result {
                    Err(error) => rejected(error, 2 + condition.consumed),
                    Ok(test) => match expectation(
                        tokens,
                        close,
                        names,
                        TokenKind::Punctuator(Punctuator::CloseParen),
                        context,
                    ) {
                        Err(error) => rejected(error, 2 + condition.consumed),
                        Ok(_) => {
                            let body = statement(
                                tokens,
                                close + 1,
                                names,
                                allow_yield,
                                allow_await,
                                allow_return,
                            );
                            Parsed {
                                result: match body.result {
                                    Ok(inner) => Ok(
                                        Node::WhileLoop {
                                            condition: Box::new(test),
                                            body: Box::new(inner),
                                        },
                                    ),
                                    Err(error) => Err(error),
                                },
                                consumed: 3 + condition.consumed + body.consumed,
                            }
                        },
                    },
                }
            },
        },
    }
}

/// One statement: a `while` loop, a `throw`, a `return` where the context
/// allows one, the empty statement, or an expression with a semicolon if one
/// follows.
pub open spec fn statement(
    tokens: Seq<Token>,
    pos: nat,
    names: Seq<Seq<char>>,
    allow_yield: bool,
    allow_await: bool,
    allow_return: bool,
) -> Parsed
    decreases remaining(tokens, pos), 1nat,
{
    match token_at(tokens, pos) {
        None => rejected(SpecParseError::AbruptEnd, 0),
        Some(token) => match token.kind {
            TokenKind::Keyword(Keyword::While) => while_statement(
                tokens,
                pos,
                names,
                allow_yield,
                allow_await,
                allow_return,
            ),
            TokenKind::Keyword(Keyword::Throw) => throw_statement(
                tokens,
                pos,
                names,
                allow_yield,
                allow_await,
            ),
            TokenKind::Keyword(Keyword::Return) => if allow_return {
                return_statement(tokens, pos, names, allow_yield, allow_await)
            } else {
                rejected(unexpected_token(token, names, "statement"@), 0)
            },
            TokenKind::Punctuator(Punctuator::Semicolon) => accepted(Node::Empty, 1),
            _ => statement_value(tokens, pos, names, allow_yield, allow_await),
        },
    }
}

} // verus!
