//! Laws of the grammar and of the cursor, proved once for all inputs.

use vstd::prelude::*;
use crate::cursor::{advanced_at, remaining, rewound_at, token_at, Cursor};
use crate::error::SpecParseError;
use crate::grammar::{
    accepted, comma_sequence, expression, kind_at, primary, rejected, return_statement,
    statement, statement_value, throw_statement, unary_expression, unary_operator,
    update_expression, while_statement, Parsed,
};
use crate::punctuator::Punctuator;
use crate::token::TokenKind;
use crate::node::Node;
use crate::op::UnaryOp;
use crate::token::Token;

verus! {

/// `innermost` under the operators `ops`, the first of them outermost.
pub open spec fn nested(ops: Seq<UnaryOp>, innermost: Node) -> Node
    decreases ops.len(),
{
    if ops.len() == 0 {
        innermost
    } else {
        Node::UnaryOp { op: ops[0], operand: Box::new(nested(ops.drop_first(), innermost)) }
    }
}

/// How many prefix operators stand on top of one another at the root of
/// `node`.
pub open spec fn operator_depth(node: Node) -> nat
    decreases node,
{
    match node {
        Node::UnaryOp { op, operand } => 1 + operator_depth(*operand),
        _ => 0,
    }
}

/// A token that forms a primary expression is no prefix operator.
pub proof fn lemma_primary_is_no_operator(token: Token, allow_yield: bool, allow_await: bool)
    requires
        primary(token.kind, allow_yield, allow_await) is Some,
    ensures
        unary_operator(token.kind) is None,
        operator_depth(primary(token.kind, allow_yield, allow_await)->0) == 0,
{
}

/// Any number of prefix operators before a primary expression parse to a
/// chain of exactly that many operator nodes, nested to the right, with the
/// primary expression innermost; and every one of the tokens is taken.
pub proof fn lemma_prefix_operators_nest(
    tokens: Seq<Token>,
    pos: nat,
    ops: Seq<UnaryOp>,
    innermost: Node,
    names: Seq<Seq<char>>,
    allow_yield: bool,
    allow_await: bool,
)
    requires
        pos + ops.len() < tokens.len(),
        forall|i: int|
            0 <= i < ops.len() ==> unary_operator(tokens[pos + i].kind) == Some(#[trigger] ops[i]),
        primary(tokens[pos + ops.len() as int].kind, allow_yield, allow_await) == Some(innermost),
    ensures
        unary_expression(tokens, pos, names, allow_yield, allow_await) == accepted(
            nested(ops, innermost),
            ops.len() + 1,
        ),
        operator_depth(nested(ops, innermost)) == ops.len(),
    decreases ops.len(),
{
    if ops.len() == 0 {
        lemma_primary_is_no_operator(tokens[pos as int], allow_yield, allow_await);
    } else {
        let rest = ops.drop_first();
        assert forall|i: int| 0 <= i < rest.len() implies unary_operator(
            tokens[pos + 1 + i].kind,
        ) == Some(#[trigger] rest[i]) by {
            assert(rest[i] == ops[i + 1]);
        }
        lemma_prefix_operators_nest(
            tokens,
            pos + 1,
            rest,
            innermost,
            names,
            allow_yield,
            allow_await,
        );
        assert(unary_operator(tokens[pos + 0int].kind) == Some(ops[0]));
    }
}

/// An error of the tier below comes up through any number of prefix
/// operators unchanged: the operators add no node and no wrapping, only the
/// tokens that they took themselves.
pub proof fn lemma_prefix_operators_pass_errors(
    tokens: Seq<Token>,
    pos: nat,
    count: nat,
    error: SpecParseError,
    names: Seq<Seq<char>>,
    allow_yield: bool,
    allow_await: bool,
)
    requires
        pos + count <= tokens.len(),
        forall|i: int| pos <= i < pos + count ==> unary_operator(#[trigger] tokens[i].kind) is Some,
        token_at(tokens, pos + count) matches Some(token) ==> unary_operator(token.kind) is None,
        update_expression(tokens, pos + count, names, allow_yield, allow_await).result == Err::<
            Node,
            SpecParseError,
        >(error),
    ensures
        unary_expression(tokens, pos, names, allow_yield, allow_await) == rejected(
            error,
            count + update_expression(
                tokens,
                pos + count,
                names,
                allow_yield,
                allow_await,
            ).consumed,
        ),
    decreases count,
{
    if count > 0 {
        assert(unary_operator(tokens[pos as int].kind) is Some);
        lemma_prefix_operators_pass_errors(
            tokens,
            pos + 1,
            (count - 1) as nat,
            error,
            names,
            allow_yield,
            allow_await,
        );
    }
}

/// Where no prefix operator stands at `pos`, the tier of the prefix
/// operators yields exactly what the tier below it yields there, error or
/// not, and puts no operator node on top.
pub proof fn lemma_no_operator_delegates(
    tokens: Seq<Token>,
    pos: nat,
    names: Seq<Seq<char>>,
    allow_yield: bool,
    allow_await: bool,
)
    requires
        token_at(tokens, pos) matches Some(token) ==> unary_operator(token.kind) is None,
    ensures
        unary_expression(tokens, pos, names, allow_yield, allow_await) == update_expression(
            tokens,
            pos,
            names,
            allow_yield,
            allow_await,
        ),
        unary_expression(tokens, pos, names, allow_yield, allow_await).result matches Ok(node)
            ==> operator_depth(node) == 0,
{
}

/// `parsed`, yielded at `pos`, takes no token beyond the end of `tokens`.
pub open spec fn within_tokens(tokens: Seq<Token>, pos: nat, parsed: Parsed) -> bool {
    pos + parsed.consumed <= tokens.len()
}

/// `parsed` is an error, or it took at least one token.
pub open spec fn makes_progress(parsed: Parsed) -> bool {
    parsed.result is Ok ==> parsed.consumed >= 1
}

/// The tier of the prefix operators never reads past the end of the tokens,
/// and succeeds only by taking at least one of them.
pub proof fn lemma_unary_expression_is_bounded(
    tokens: Seq<Token>,
    pos: nat,
    names: Seq<Seq<char>>,
    allow_yield: bool,
    allow_await: bool,
)
    requires
        pos <= tokens.len(),
    ensures
        within_tokens(tokens, pos, unary_expression(tokens, pos, names, allow_yield, allow_await)),
        makes_progress(unary_expression(tokens, pos, names, allow_yield, allow_await)),
    decreases remaining(tokens, pos),
{
    if pos < tokens.len() && unary_operator(tokens[pos as int].kind) is Some {
        lemma_unary_expression_is_bounded(tokens, pos + 1, names, allow_yield, allow_await);
    }
}

/// The rest of a comma expression never reads past the end of the tokens.
pub proof fn lemma_comma_sequence_is_bounded(
    tokens: Seq<Token>,
    pos: nat,
    names: Seq<Seq<char>>,
    allow_yield: bool,
    allow_await: bool,
    left: Node,
)
    requires
        pos <= tokens.len(),
    ensures
        within_tokens(
            tokens,
            pos,
            comma_sequence(tokens, pos, names, allow_yield, allow_await, left),
        ),
    decreases remaining(tokens, pos),
{
    if kind_at(tokens, pos, TokenKind::Punctuator(Punctuator::Comma)) {
        lemma_unary_expression_is_bounded(tokens, pos + 1, names, allow_yield, allow_await);
        let right = unary_expression(tokens, pos + 1, names, allow_yield, allow_await);
        match right.result {
            Ok(node) => {
                lemma_comma_sequence_is_bounded(
                    tokens,
                    pos + 1 + right.consumed,
                    names,
                    allow_yield,
                    allow_await,
                    Node::Comma { left: Box::new(left), right: Box::new(node) },
                );
            },
            Err(_) => {},
        }
    }
}

/// An expression never reads past the end of the tokens, and succeeds only
/// by taking at least one of them.
pub proof fn lemma_expression_is_bounded(
    tokens: Seq<Token>,
    pos: nat,
    names: Seq<Seq<char>>,
    allow_comma: bool,
    allow_yield: bool,
    allow_await: bool,
)
    requires
        pos <= tokens.len(),
    ensures
        within_tokens(
            tokens,
            pos,
            expression(tokens, pos, names, allow_comma, allow_yield, allow_await),
        ),
        makes_progress(expression(tokens, pos, names, allow_comma, allow_yield, allow_await)),
{
    lemma_unary_expression_is_bounded(tokens, pos, names, allow_yield, allow_await);
    let first = unary_expression(tokens, pos, names, allow_yield, allow_await);
    match first.result {
        Ok(node) => {
            lemma_comma_sequence_is_bounded(
                tokens,
                pos + first.consumed,
                names,
                allow_yield,
                allow_await,
                node,
            );
        },
        Err(_) => {},
    }
}

/// A `throw` statement and a `return` statement never read past the end of
/// the tokens, and succeed only by taking at least one of them.
pub proof fn lemma_throw_and_return_are_bounded(
    tokens: Seq<Token>,
    pos: nat,
    names: Seq<Seq<char>>,
    allow_yield: bool,
    allow_await: bool,
)
    requires
        pos <= tokens.len(),
    ensures
        within_tokens(tokens, pos, throw_statement(tokens, pos, names, allow_yield, allow_await)),
        makes_progress(throw_statement(tokens, pos, names, allow_yield, allow_await)),
        within_tokens(tokens, pos, return_statement(tokens, pos, names, allow_yield, allow_await)),
        makes_progress(return_statement(tokens, pos, names, allow_yield, allow_await)),
        within_tokens(tokens, pos, statement_value(tokens, pos, names, allow_yield, allow_await)),
        makes_progress(statement_value(tokens, pos, names, allow_yield, allow_await)),
{
    lemma_expression_is_bounded(tokens, pos, names, true, allow_yield, allow_await);
    if pos < tokens.len() {
        lemma_expression_is_bounded(tokens, pos + 1, names, true, allow_yield, allow_await);
    }
}

/// A `while` statement never reads past the end of the tokens, and succeeds
/// only by taking at least one of them.
pub proof fn lemma_while_statement_is_bounded(
    tokens: Seq<Token>,
    pos: nat,
    names: Seq<Seq<char>>,
    allow_yield: bool,
    allow_await: bool,
    allow_return: bool,
)
    requires
        pos <= tokens.len(),
    ensures
        within_tokens(
            tokens,
            pos,
            while_statement(tokens, pos, names, allow_yield, allow_await, allow_return),
        ),
        makes_progress(
            while_statement(tokens, pos, names, allow_yield, allow_await, allow_return),
        ),
    decreases remaining(tokens, pos), 0nat,
{
    if pos + 2 <= tokens.len() {
        lemma_expression_is_bounded(tokens, pos + 2, names, true, allow_yield, allow_await);
        let condition = expression(tokens, pos + 2, names, true, allow_yield, allow_await);
        let close = pos + 2 + condition.consumed;
        if condition.result is Ok && kind_at(
            tokens,
            close,
            TokenKind::Punctuator(Punctuator::CloseParen),
        ) {
            lemma_statement_is_bounded(
                tokens,
                close + 1,
                names,
                allow_yield,
                allow_await,
                allow_return,
            );
        }
    }
}

/// A statement never reads past the end of the tokens, and succeeds only by
/// taking at least one of them: a loop that parses statement after statement
/// comes to an end.
pub proof fn lemma_statement_is_bounded(
    tokens: Seq<Token>,
    pos: nat,
    names: Seq<Seq<char>>,
    allow_yield: bool,
    allow_await: bool,
    allow_return: bool,
)
    requires
        pos <= tokens.len(),
    ensures
        within_tokens(
            tokens,
            pos,
            statement(tokens, pos, names, allow_yield, allow_await, allow_return),
        ),
        makes_progress(statement(tokens, pos, names, allow_yield, allow_await, allow_return)),
    decreases remaining(tokens, pos), 1nat,
{
    lemma_throw_and_return_are_bounded(tokens, pos, names, allow_yield, allow_await);
    lemma_while_statement_is_bounded(tokens, pos, names, allow_yield, allow_await, allow_return);
}

/// The rule of the single rewind. In the movements of a well-formed cursor
/// every rewind comes directly after a step forward, and what comes directly
/// after a rewind is a step forward: between two calls of `back` there is
/// always a `next` that took a token.
///
/// Every production returns the cursor well-formed and with its earlier
/// movements kept, so the rule holds of a whole parse.
pub proof fn lemma_no_double_rewind(cursor: Cursor, i: int)
    requires
        cursor.wf(),
        rewound_at(cursor.moves(), i),
    ensures
        advanced_at(cursor.moves(), i - 1),
        i + 1 < cursor.moves().len() ==> advanced_at(cursor.moves(), i + 1),
{
    if i + 1 < cursor.moves().len() && !advanced_at(cursor.moves(), i + 1) {
        assert(rewound_at(cursor.moves(), i + 1));
    }
}

} // verus!
