//! The syntax tree.

use vstd::prelude::*;
use crate::interner::Sym;
use crate::op::UnaryOp;

verus! {

/// A literal value.
#[derive(Clone, Copy, Debug, PartialEq, Eq, Structural)]
pub enum Const {
    /// `true` or `false`.
    Bool(bool),
    /// `null`.
    Null,
    /// A number, carried as its interned source text.
    Num(Sym),
    /// A string, interned.
    String(Sym),
}

/// A fragment of the syntax tree. A node owns its children: the tree has no
/// sharing and no cycles.
#[derive(Debug, PartialEq, Eq)]
pub enum Node {
    /// The empty statement, `;`.
    Empty,
    /// `this`.
    This,
    /// A reference to a name.
    Identifier(Sym),
    /// A literal.
    Const(Const),
    /// A prefix operator applied to an operand.
    UnaryOp { op: UnaryOp, operand: Box<Node> },
    /// Two expressions joined by a comma.
    Comma { left: Box<Node>, right: Box<Node> },
    /// A `while` loop.
    WhileLoop { condition: Box<Node>, body: Box<Node> },
    /// A `throw` statement.
    Throw { expression: Box<Node> },
    /// A `return` statement, with or without a value.
    Return { value: Option<Box<Node>> },
}

impl Node {
    /// The node for `op` applied to `operand`.
    pub fn unary_op(op: UnaryOp, operand: Node) -> (node: Node)
        ensures
            node == (Node::UnaryOp { op, operand: Box::new(operand) }),
    {
        Node::UnaryOp { op, operand: Box::new(operand) }
    }

    /// The node for `left , right`.
    pub fn comma(left: Node, right: Node) -> (node: Node)
        ensures
            node == (Node::Comma { left: Box::new(left), right: Box::new(right) }),
    {
        Node::Comma { left: Box::new(left), right: Box::new(right) }
    }

    /// The node for a loop that runs `body` while `condition` holds.
    pub fn while_loop(condition: Node, body: Node) -> (node: Node)
        ensures
            node == (Node::WhileLoop { condition: Box::new(condition), body: Box::new(body) }),
    {
        Node::WhileLoop { condition: Box::new(condition), body: Box::new(body) }
    }

    /// The node for a statement that throws the value of `expression`.
    pub fn throw(expression: Node) -> (node: Node)
        ensures
            node == (Node::Throw { expression: Box::new(expression) }),
    {
        Node::Throw { expression: Box::new(expression) }
    }

    /// The node for a `return` with the given value, if any.
    pub fn return_value(value: Option<Node>) -> (node: Node)
        ensures
            node == (Node::Return {
                value: match value {
                    Some(inner) => Some(Box::new(inner)),
                    None => None,
                },
            }),
    {
        match value {
            Some(inner) => Node::Return { value: Some(Box::new(inner)) },
            None => Node::Return { value: None },
        }
    }
}

impl Clone for Node {
    fn clone(&self) -> (copy: Self)
        ensures
            copy == *self,
        decreases *self,
    {
        match self {
            Node::Empty => Node::Empty,
            Node::This => Node::This,
            Node::Identifier(sym) => Node::Identifier(*sym),
            Node::Const(value) => Node::Const(*value),
            Node::UnaryOp { op, operand } => Node::UnaryOp {
                op: *op,
                operand: Box::new((**operand).clone()),
            },
            Node::Comma { left, right } => Node::Comma {
                left: Box::new((**left).clone()),
                right: Box::new((**right).clone()),
            },
            Node::WhileLoop { condition, body } => Node::WhileLoop {
                condition: Box::new((**condition).clone()),
                body: Box::new((**body).clone()),
            },
            Node::Throw { expression } => Node::Throw {
                expression: Box::new((**expression).clone()),
            },
            Node::Return { value } => match value {
                Some(inner) => Node::Return { value: Some(Box::new((**inner).clone())) },
                None => Node::Return { value: None },
            },
        }
    }
}

} // verus!
