//! Prefix operators.

use vstd::prelude::*;

verus! {

/// An operator that stands before its operand.
#[derive(Clone, Copy, Debug, PartialEq, Eq, Structural)]
pub enum UnaryOp {
    /// `delete`
    Delete,
    /// `void`
    Void,
    /// `typeof`
    TypeOf,
    /// `+`
    Plus,
    /// `-`
    Minus,
    /// `~`
    Tilde,
    /// `!`
    Not,
}

} // verus!
