use boa::cursor::Cursor;
use boa::error::ParseError;
use boa::expression::Expression;
use boa::interner::Interner;
use boa::node::Node;
use boa::op::UnaryOp;
use boa::parser::TokenParser;
use boa::position::Position;
use boa::punctuator::Punctuator;
use boa::token::{Token, TokenKind};

fn expression_tokens(kinds: Vec<TokenKind>) -> Vec<Token> {
    let mut tokens = Vec::new();
    for (i, kind) in kinds.into_iter().enumerate() {
        tokens.push(Token::new(kind, Position::new(1, i as u32 + 1)));
    }
    tokens
}

fn comma_token() -> TokenKind {
    TokenKind::Punctuator(Punctuator::Comma)
}

#[test]
fn a_single_operand_is_an_expression() {
    let mut interner = Interner::new();
    let a = interner.get_or_intern("a");
    let tokens = expression_tokens(vec![TokenKind::Identifier(a)]);
    let mut cursor = Cursor::new(&tokens);
    let parsed = Expression::new(true, false, false).parse(&mut cursor, &mut interner);
    assert_eq!(parsed, Ok(Node::Identifier(a)));
    assert_eq!(cursor.pos(), 1);
}

#[test]
fn commas_join_operands_to_the_left() {
    let mut interner = Interner::new();
    let a = interner.get_or_intern("a");
    let b = interner.get_or_intern("b");
    let c = interner.get_or_intern("c");
    let tokens = expression_tokens(vec![
        TokenKind::Identifier(a),
        comma_token(),
        TokenKind::Punctuator(Punctuator::Not),
        TokenKind::Identifier(b),
        comma_token(),
        TokenKind::Identifier(c),
        TokenKind::Punctuator(Punctuator::CloseParen),
    ]);
    let mut cursor = Cursor::new(&tokens);
    let parsed = Expression::new(true, false, false).parse(&mut cursor, &mut interner);
    assert_eq!(
        parsed,
        Ok(Node::comma(
            Node::comma(Node::Identifier(a), Node::unary_op(UnaryOp::Not, Node::Identifier(b))),
            Node::Identifier(c),
        ))
    );
    assert_eq!(cursor.pos(), 6);
}

#[test]
fn without_the_comma_form_a_comma_stays_for_the_caller() {
    let mut interner = Interner::new();
    let a = interner.get_or_intern("a");
    let b = interner.get_or_intern("b");
    let tokens = expression_tokens(vec![
        TokenKind::Identifier(a),
        comma_token(),
        TokenKind::Identifier(b),
    ]);
    let mut cursor = Cursor::new(&tokens);
    let parsed = Expression::new(false, false, false).parse(&mut cursor, &mut interner);
    assert_eq!(parsed, Ok(Node::Identifier(a)));
    assert_eq!(cursor.pos(), 1);
    assert_eq!(cursor.next(), Some(tokens[1]));
}

#[test]
fn a_comma_at_the_end_is_abrupt_end() {
    let mut interner = Interner::new();
    let a = interner.get_or_intern("a");
    let tokens = expression_tokens(vec![TokenKind::Identifier(a), comma_token()]);
    let mut cursor = Cursor::new(&tokens);
    let parsed = Expression::new(true, false, false).parse(&mut cursor, &mut interner);
    assert_eq!(parsed, Err(ParseError::AbruptEnd));
    assert_eq!(cursor.pos(), 2);
}

#[test]
fn a_comma_before_no_operand_is_unexpected() {
    let mut interner = Interner::new();
    let a = interner.get_or_intern("a");
    let tokens = expression_tokens(vec![
        TokenKind::Identifier(a),
        comma_token(),
        TokenKind::Punctuator(Punctuator::CloseParen),
    ]);
    let mut cursor = Cursor::new(&tokens);
    let parsed = Expression::new(true, false, false).parse(&mut cursor, &mut interner);
    assert_eq!(
        parsed,
        Err(ParseError::Unexpected {
            found: String::from(")"),
            position: Position::new(1, 3),
            context: "primary expression",
        })
    );
    assert_eq!(cursor.pos(), 2);
}

#[test]
fn an_expression_on_an_empty_stream_is_abrupt_end() {
    let mut interner = Interner::new();
    let tokens: Vec<Token> = Vec::new();
    let mut cursor = Cursor::new(&tokens);
    let parsed = Expression::new(true, false, false).parse(&mut cursor, &mut interner);
    assert_eq!(parsed, Err(ParseError::AbruptEnd));
    assert_eq!(cursor.pos(), 0);
}

#[test]
fn a_long_comma_expression_is_parsed_whole() {
    let mut interner = Interner::new();
    let a = interner.get_or_intern("a");
    let mut kinds = vec![TokenKind::Identifier(a)];
    let mut expected = Node::Identifier(a);
    for _ in 0..500 {
        kinds.push(comma_token());
        kinds.push(TokenKind::NullLiteral);
        expected = Node::comma(expected, Node::Const(boa::node::Const::Null));
    }
    let tokens = expression_tokens(kinds);
    let mut cursor = Cursor::new(&tokens);
    let parsed = Expression::new(true, false, false).parse(&mut cursor, &mut interner);
    assert_eq!(parsed, Ok(expected));
    assert_eq!(cursor.pos(), 1001);
}
