//! The parsing context: three independent permissions that say where in the
//! program the parser stands. They are plain values, copied into every
//! production and never changed in place.

use vstd::prelude::*;

verus! {

/// Whether `yield` is an operator here: true inside a generator.
#[derive(Clone, Copy, Debug, PartialEq, Eq, Structural)]
pub struct AllowYield(pub bool);

impl From<bool> for AllowYield {
    fn from(allow: bool) -> (flag: Self) {
        AllowYield(allow)
    }
}

impl vstd::std_specs::convert::FromSpecImpl<bool> for AllowYield {
    open spec fn obeys_from_spec() -> bool {
        true
    }

    open spec fn from_spec(allow: bool) -> Self {
        AllowYield(allow)
    }
}

/// Whether `await` is an operator here: true inside an async function.
#[derive(Clone, Copy, Debug, PartialEq, Eq, Structural)]
pub struct AllowAwait(pub bool);

impl From<bool> for AllowAwait {
    fn from(allow: bool) -> (flag: Self) {
        AllowAwait(allow)
    }
}

impl vstd::std_specs::convert::FromSpecImpl<bool> for AllowAwait {
    open spec fn obeys_from_spec() -> bool {
        true
    }

    open spec fn from_spec(allow: bool) -> Self {
        AllowAwait(allow)
    }
}

/// Whether a `return` statement may stand here: true inside a function body.
#[derive(Clone, Copy, Debug, PartialEq, Eq, Structural)]
pub struct AllowReturn(pub bool);

impl From<bool> for AllowReturn {
    fn from(allow: bool) -> (flag: Self) {
        AllowReturn(allow)
    }
}

impl vstd::std_specs::convert::FromSpecImpl<bool> for AllowReturn {
    open spec fn obeys_from_spec() -> bool {
        true
    }

    open spec fn from_spec(allow: bool) -> Self {
        AllowReturn(allow)
    }
}

/// The three permissions together. Entering a nested scope makes a changed
/// copy; the value of the enclosing scope stays as it was.
#[derive(Clone, Copy, Debug, PartialEq, Eq, Structural)]
pub struct ParsingContext {
    pub allow_yield: AllowYield,
    pub allow_await: AllowAwait,
    pub allow_return: AllowReturn,
}

impl ParsingContext {
    /// The context with the given permissions.
    pub fn new(allow_yield: bool, allow_await: bool, allow_return: bool) -> (context: Self)
        ensures
            context == (ParsingContext {
                allow_yield: AllowYield(allow_yield),
                allow_await: AllowAwait(allow_await),
                allow_return: AllowReturn(allow_return),
            }),
    {
        ParsingContext {
            allow_yield: AllowYield(allow_yield),
            allow_await: AllowAwait(allow_await),
            allow_return: AllowReturn(allow_return),
        }
    }

    /// This context with the `yield` permission replaced.
    pub fn with_yield(self, allow: bool) -> (context: Self)
        ensures
            context == (ParsingContext { allow_yield: AllowYield(allow), ..self }),
    {
        ParsingContext { allow_yield: AllowYield(allow), ..self }
    }

    /// This context with the `await` permission replaced.
    pub fn with_await(self, allow: bool) -> (context: Self)
        ensures
            context == (ParsingContext { allow_await: AllowAwait(allow), ..self }),
    {
        ParsingContext { allow_await: AllowAwait(allow), ..self }
    }

    /// This context with the `return` permission replaced.
    pub fn with_return(self, allow: bool) -> (context: Self)
        ensures
            context == (ParsingContext { allow_return: AllowReturn(allow), ..self }),
    {
        ParsingContext { allow_return: AllowReturn(allow), ..self }
    }
}

impl Default for ParsingContext {
    /// The context at the top of a script: outside any generator, async
    /// function or function body.
    fn default() -> (context: Self)
        ensures
            context == (ParsingContext {
                allow_yield: AllowYield(false),
                allow_await: AllowAwait(false),
                allow_return: AllowReturn(false),
            }),
    {
        ParsingContext {
            allow_yield: AllowYield(false),
            allow_await: AllowAwait(false),
            allow_return: AllowReturn(false),
        }
    }
}

} // verus!
