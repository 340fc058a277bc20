use boa::cursor::Cursor;
use boa::error::ParseError;
use boa::interner::Interner;
use boa::keyword::Keyword;
use boa::node::{Const, Node};
use boa::op::UnaryOp;
use boa::parser::TokenParser;
use boa::position::Position;
use boa::punctuator::Punctuator;
use boa::statement::WhileStatement;
use boa::token::{Token, TokenKind};

fn while_tokens(kinds: Vec<TokenKind>) -> Vec<Token> {
    let mut tokens = Vec::new();
    for (i, kind) in kinds.into_iter().enumerate() {
        tokens.push(Token::new(kind, Position::new(1, i as u32 + 1)));
    }
    tokens
}

fn while_keyword() -> TokenKind {
    TokenKind::Keyword(Keyword::While)
}

fn open_paren() -> TokenKind {
    TokenKind::Punctuator(Punctuator::OpenParen)
}

fn close_paren() -> TokenKind {
    TokenKind::Punctuator(Punctuator::CloseParen)
}

fn while_semicolon() -> TokenKind {
    TokenKind::Punctuator(Punctuator::Semicolon)
}

#[test]
fn while_true_with_empty_body() {
    let mut interner = Interner::new();
    let tokens = while_tokens(vec![
        while_keyword(),
        open_paren(),
        TokenKind::BooleanLiteral(true),
        close_paren(),
        while_semicolon(),
    ]);
    let mut cursor = Cursor::new(&tokens);
    let parsed = WhileStatement::new(false, false, false).parse(&mut cursor, &mut interner);
    assert_eq!(
        parsed,
        Ok(Node::WhileLoop {
            condition: Box::new(Node::Const(Const::Bool(true))),
            body: Box::new(Node::Empty),
        })
    );
    assert_eq!(cursor.pos(), 5);
}

#[test]
fn while_without_open_paren_is_unexpected() {
    let mut interner = Interner::new();
    let tokens = vec![
        Token::new(while_keyword(), Position::new(1, 1)),
        Token::new(TokenKind::BooleanLiteral(true), Position::new(1, 7)),
        Token::new(close_paren(), Position::new(1, 11)),
        Token::new(while_semicolon(), Position::new(1, 13)),
    ];
    let mut cursor = Cursor::new(&tokens);
    let parsed = WhileStatement::new(false, false, false).parse(&mut cursor, &mut interner);
    assert_eq!(
        parsed,
        Err(ParseError::Unexpected {
            found: String::from("true"),
            position: Position::new(1, 7),
            context: "while statement",
        })
    );
    assert_eq!(cursor.pos(), 1);
}

#[test]
fn while_cut_off_after_open_paren_is_abrupt_end() {
    let mut interner = Interner::new();
    let tokens = while_tokens(vec![while_keyword(), open_paren()]);
    let mut cursor = Cursor::new(&tokens);
    let parsed = WhileStatement::new(false, false, false).parse(&mut cursor, &mut interner);
    assert_eq!(parsed, Err(ParseError::AbruptEnd));
}

#[test]
fn while_cut_off_anywhere_is_abrupt_end() {
    let mut interner = Interner::new();
    let whole = vec![
        while_keyword(),
        open_paren(),
        TokenKind::BooleanLiteral(true),
        close_paren(),
        while_semicolon(),
    ];
    for cut in 0..whole.len() {
        let tokens = while_tokens(whole[..cut].to_vec());
        let mut cursor = Cursor::new(&tokens);
        let parsed = WhileStatement::new(false, false, false).parse(&mut cursor, &mut interner);
        assert_eq!(parsed, Err(ParseError::AbruptEnd));
        assert_eq!(cursor.pos(), cut);
    }
}

#[test]
fn while_must_start_with_its_keyword() {
    let mut interner = Interner::new();
    let tokens = while_tokens(vec![
        TokenKind::Keyword(Keyword::Throw),
        open_paren(),
        TokenKind::BooleanLiteral(true),
        close_paren(),
        while_semicolon(),
    ]);
    let mut cursor = Cursor::new(&tokens);
    let parsed = WhileStatement::new(false, false, false).parse(&mut cursor, &mut interner);
    assert_eq!(
        parsed,
        Err(ParseError::Unexpected {
            found: String::from("throw"),
            position: Position::new(1, 1),
            context: "while statement",
        })
    );
    assert_eq!(cursor.pos(), 0);
}

#[test]
fn while_without_close_paren_is_unexpected() {
    let mut interner = Interner::new();
    let tokens = while_tokens(vec![
        while_keyword(),
        open_paren(),
        TokenKind::BooleanLiteral(true),
        while_semicolon(),
    ]);
    let mut cursor = Cursor::new(&tokens);
    let parsed = WhileStatement::new(false, false, false).parse(&mut cursor, &mut interner);
    assert_eq!(
        parsed,
        Err(ParseError::Unexpected {
            found: String::from(";"),
            position: Position::new(1, 4),
            context: "while statement",
        })
    );
    assert_eq!(cursor.pos(), 3);
}

#[test]
fn while_hands_up_the_error_of_its_condition() {
    let mut interner = Interner::new();
    let tokens = while_tokens(vec![while_keyword(), open_paren(), close_paren(), while_semicolon()]);
    let mut cursor = Cursor::new(&tokens);
    let parsed = WhileStatement::new(false, false, false).parse(&mut cursor, &mut interner);
    assert_eq!(
        parsed,
        Err(ParseError::Unexpected {
            found: String::from(")"),
            position: Position::new(1, 3),
            context: "primary expression",
        })
    );
    assert_eq!(cursor.pos(), 2);
}

#[test]
fn while_hands_up_the_error_of_its_body() {
    let mut interner = Interner::new();
    let tokens = while_tokens(vec![
        while_keyword(),
        open_paren(),
        TokenKind::BooleanLiteral(true),
        close_paren(),
        TokenKind::Keyword(Keyword::Throw),
        while_semicolon(),
    ]);
    let mut cursor = Cursor::new(&tokens);
    let parsed = WhileStatement::new(false, false, false).parse(&mut cursor, &mut interner);
    assert_eq!(
        parsed,
        Err(ParseError::Unexpected {
            found: String::from(";"),
            position: Position::new(1, 6),
            context: "throw statement",
        })
    );
    assert_eq!(cursor.pos(), 5);
}

#[test]
fn while_takes_a_comma_expression_as_condition() {
    let mut interner = Interner::new();
    let a = interner.get_or_intern("a");
    let b = interner.get_or_intern("b");
    let tokens = while_tokens(vec![
        while_keyword(),
        open_paren(),
        TokenKind::Identifier(a),
        TokenKind::Punctuator(Punctuator::Comma),
        TokenKind::Punctuator(Punctuator::Not),
        TokenKind::Identifier(b),
        close_paren(),
        while_semicolon(),
    ]);
    let mut cursor = Cursor::new(&tokens);
    let parsed = WhileStatement::new(false, false, false).parse(&mut cursor, &mut interner);
    assert_eq!(
        parsed,
        Ok(Node::while_loop(
            Node::comma(Node::Identifier(a), Node::unary_op(UnaryOp::Not, Node::Identifier(b))),
            Node::Empty,
        ))
    );
    assert_eq!(cursor.pos(), 8);
}

#[test]
fn while_loops_nest() {
    let mut interner = Interner::new();
    let a = interner.get_or_intern("a");
    let b = interner.get_or_intern("b");
    let tokens = while_tokens(vec![
        while_keyword(),
        open_paren(),
        TokenKind::Identifier(a),
        close_paren(),
        while_keyword(),
        open_paren(),
        TokenKind::Identifier(b),
        close_paren(),
        TokenKind::Keyword(Keyword::Throw),
        TokenKind::Identifier(a),
        while_semicolon(),
        while_semicolon(),
    ]);
    let mut cursor = Cursor::new(&tokens);
    let parsed = WhileStatement::new(false, false, false).parse(&mut cursor, &mut interner);
    assert_eq!(
        parsed,
        Ok(Node::while_loop(
            Node::Identifier(a),
            Node::while_loop(Node::Identifier(b), Node::throw(Node::Identifier(a))),
        ))
    );
    assert_eq!(cursor.pos(), 11);
}

#[test]
fn while_passes_the_return_permission_to_its_body() {
    let mut interner = Interner::new();
    let a = interner.get_or_intern("a");
    let tokens = while_tokens(vec![
        while_keyword(),
        open_paren(),
        TokenKind::Identifier(a),
        close_paren(),
        TokenKind::Keyword(Keyword::Return),
        while_semicolon(),
    ]);
    let mut cursor = Cursor::new(&tokens);
    let inside = WhileStatement::new(false, false, true).parse(&mut cursor, &mut interner);
    assert_eq!(inside, Ok(Node::while_loop(Node::Identifier(a), Node::return_value(None))));
    assert_eq!(cursor.pos(), 6);

    let mut cursor = Cursor::new(&tokens);
    let outside = WhileStatement::new(false, false, false).parse(&mut cursor, &mut interner);
    assert_eq!(
        outside,
        Err(ParseError::Unexpected {
            found: String::from("return"),
            position: Position::new(1, 5),
            context: "statement",
        })
    );
    assert_eq!(cursor.pos(), 4);
}

#[test]
fn while_passes_the_yield_and_await_permissions_on() {
    let mut interner = Interner::new();
    let tokens = while_tokens(vec![
        while_keyword(),
        open_paren(),
        TokenKind::Keyword(Keyword::Yield),
        close_paren(),
        TokenKind::Keyword(Keyword::Await),
        while_semicolon(),
    ]);
    let mut cursor = Cursor::new(&tokens);
    let plain = WhileStatement::new(false, false, false).parse(&mut cursor, &mut interner);
    assert_eq!(
        plain,
        Ok(Node::while_loop(
            Node::Identifier(boa::interner::Sym::of_yield()),
            Node::Identifier(boa::interner::Sym::of_await()),
        ))
    );
    assert_eq!(cursor.pos(), 6);

    let mut cursor = Cursor::new(&tokens);
    let generator = WhileStatement::new(true, false, false).parse(&mut cursor, &mut interner);
    assert_eq!(
        generator,
        Err(ParseError::Unexpected {
            found: String::from("yield"),
            position: Position::new(1, 3),
            context: "primary expression",
        })
    );

    let mut cursor = Cursor::new(&tokens);
    let asynchronous = WhileStatement::new(false, true, false).parse(&mut cursor, &mut interner);
    assert_eq!(
        asynchronous,
        Err(ParseError::Unexpected {
            found: String::from("await"),
            position: Position::new(1, 5),
            context: "primary expression",
        })
    );
}

#[test]
fn while_leaves_what_follows_its_body() {
    let mut interner = Interner::new();
    let tokens = while_tokens(vec![
        while_keyword(),
        open_paren(),
        TokenKind::NullLiteral,
        close_paren(),
        while_semicolon(),
        while_semicolon(),
    ]);
    let mut cursor = Cursor::new(&tokens);
    let parsed = WhileStatement::new(false, false, false).parse(&mut cursor, &mut interner);
    assert_eq!(parsed, Ok(Node::while_loop(Node::Const(Const::Null), Node::Empty)));
    assert_eq!(cursor.pos(), 5);
    assert_eq!(cursor.next(), Some(tokens[5]));
}
