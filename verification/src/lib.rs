//! Grammar productions of a recursive-descent parser for an ECMAScript-style
//! language.
//!
//! The parser reads a buffer of tokens through a [`cursor::Cursor`], which
//! looks ahead and rewinds by one token at most. Every production follows
//! [`parser::TokenParser`]: it takes the cursor and the interned names, and
//! returns a fragment of the syntax tree or the first error. The productions
//! for prefix operators, `while` and `throw` are in [`expression`] and
//! [`statement`], with the productions that they call.
//!
//! What each production returns is written down in [`grammar`] as a function
//! of the token sequence, and the executable code is proved to compute it.
//! [`laws`] holds what follows for every input.

pub mod context;
pub mod cursor;
pub mod error;
pub mod expression;
pub mod grammar;
pub mod interner;
pub mod keyword;
pub mod laws;
pub mod node;
pub mod op;
pub mod parser;
pub mod position;
pub mod punctuator;
pub mod statement;
pub mod token;
