use boa::context::{AllowAwait, AllowReturn, AllowYield, ParsingContext};
use boa::expression::{Expression, UnaryExpression, UpdateExpression};
use boa::statement::{ReturnStatement, Statement, ThrowStatement, WhileStatement};

#[test]
fn the_default_context_allows_nothing() {
    let context = ParsingContext::default();
    assert_eq!(context.allow_yield, AllowYield(false));
    assert_eq!(context.allow_await, AllowAwait(false));
    assert_eq!(context.allow_return, AllowReturn(false));
    assert_eq!(context, ParsingContext::new(false, false, false));
}

#[test]
fn a_context_holds_the_permissions_it_was_made_with() {
    let context = ParsingContext::new(true, false, true);
    assert_eq!(context.allow_yield, AllowYield(true));
    assert_eq!(context.allow_await, AllowAwait(false));
    assert_eq!(context.allow_return, AllowReturn(true));
}

#[test]
fn overriding_one_permission_leaves_the_others() {
    let outer = ParsingContext::new(true, true, false);
    let inner = outer.with_await(false);
    assert_eq!(inner, ParsingContext::new(true, false, false));
    assert_eq!(outer, ParsingContext::new(true, true, false));
    assert_eq!(outer.with_yield(false), ParsingContext::new(false, true, false));
    assert_eq!(outer.with_return(true), ParsingContext::new(true, true, true));
    assert_eq!(outer.with_yield(true), outer);
}

#[test]
fn permissions_convert_from_bool() {
    assert_eq!(AllowYield::from(true), AllowYield(true));
    assert_eq!(AllowAwait::from(false), AllowAwait(false));
    assert_eq!(AllowReturn::from(true), AllowReturn(true));
    let flag: AllowYield = false.into();
    assert_eq!(flag, AllowYield(false));
}

#[test]
fn expression_productions_keep_their_permissions() {
    let unary = UnaryExpression::new(true, false);
    assert_eq!(unary.allow_yield, AllowYield(true));
    assert_eq!(unary.allow_await, AllowAwait(false));
    let unary = UnaryExpression::new(AllowYield(false), AllowAwait(true));
    assert_eq!(unary.allow_yield, AllowYield(false));
    assert_eq!(unary.allow_await, AllowAwait(true));
    let update = UpdateExpression::new(false, true);
    assert_eq!(update.allow_yield, AllowYield(false));
    assert_eq!(update.allow_await, AllowAwait(true));
    let expression = Expression::new(true, true, false);
    assert!(expression.allow_comma);
    assert_eq!(expression.allow_yield, AllowYield(true));
    assert_eq!(expression.allow_await, AllowAwait(false));
}

#[test]
fn statement_productions_keep_their_permissions() {
    let looping = WhileStatement::new(true, false, true);
    assert_eq!(looping.allow_yield, AllowYield(true));
    assert_eq!(looping.allow_await, AllowAwait(false));
    assert_eq!(looping.allow_return, AllowReturn(true));
    let throwing = ThrowStatement::new(false, true);
    assert_eq!(throwing.allow_yield, AllowYield(false));
    assert_eq!(throwing.allow_await, AllowAwait(true));
    let returning = ReturnStatement::new(true, true);
    assert_eq!(returning.allow_yield, AllowYield(true));
    assert_eq!(returning.allow_await, AllowAwait(true));
    let statement = Statement::new(false, false, true);
    assert_eq!(statement.allow_yield, AllowYield(false));
    assert_eq!(statement.allow_await, AllowAwait(false));
    assert_eq!(statement.allow_return, AllowReturn(true));
}

#[test]
fn productions_take_their_permissions_from_a_context() {
    let context = ParsingContext::new(true, false, true);
    let looping = WhileStatement::with_context(context);
    assert_eq!(looping.allow_yield, AllowYield(true));
    assert_eq!(looping.allow_await, AllowAwait(false));
    assert_eq!(looping.allow_return, AllowReturn(true));
    let throwing = ThrowStatement::with_context(context);
    assert_eq!(throwing.allow_yield, AllowYield(true));
    assert_eq!(throwing.allow_await, AllowAwait(false));
    let unary = UnaryExpression::with_context(context);
    assert_eq!(unary.allow_yield, AllowYield(true));
    assert_eq!(unary.allow_await, AllowAwait(false));
    let expression = Expression::with_context(false, context);
    assert!(!expression.allow_comma);
    assert_eq!(expression.allow_yield, AllowYield(true));
    let statement = Statement::with_context(context);
    assert_eq!(statement.allow_return, AllowReturn(true));
    let returning = ReturnStatement::with_context(context);
    assert_eq!(returning.allow_await, AllowAwait(false));
    let update = UpdateExpression::with_context(context);
    assert_eq!(update.allow_yield, AllowYield(true));
}
