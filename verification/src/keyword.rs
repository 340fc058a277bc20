//! Reserved words of the language.

use vstd::prelude::*;

verus! {

/// A reserved word. The set is closed: the tokenizer never produces any other.
#[derive(Clone, Copy, Debug, PartialEq, Eq, Structural)]
pub enum Keyword {
    Await,
    Break,
    Case,
    Catch,
    Class,
    Const,
    Continue,
    Debugger,
    Default,
    Delete,
    Do,
    Else,
    Enum,
    Export,
    Extends,
    Finally,
    For,
    Function,
    If,
    Import,
    In,
    InstanceOf,
    Let,
    New,
    Return,
    Super,
    Switch,
    This,
    Throw,
    Try,
    TypeOf,
    Var,
    Void,
    While,
    With,
    Yield,
}

impl Keyword {
    /// The keyword as it is spelled in source text.
    pub open spec fn text(self) -> Seq<char> {
        match self {
            Keyword::Await => "await"@,
            Keyword::Break => "break"@,
            Keyword::Case => "case"@,
            Keyword::Catch => "catch"@,
            Keyword::Class => "class"@,
            Keyword::Const => "const"@,
            Keyword::Continue => "continue"@,
            Keyword::Debugger => "debugger"@,
            Keyword::Default => "default"@,
            Keyword::Delete => "delete"@,
            Keyword::Do => "do"@,
            Keyword::Else => "else"@,
            Keyword::Enum => "enum"@,
            Keyword::Export => "export"@,
            Keyword::Extends => "extends"@,
            Keyword::Finally => "finally"@,
            Keyword::For => "for"@,
            Keyword::Function => "function"@,
            Keyword::If => "if"@,
            Keyword::Import => "import"@,
            Keyword::In => "in"@,
            Keyword::InstanceOf => "instanceof"@,
            Keyword::Let => "let"@,
            Keyword::New => "new"@,
            Keyword::Return => "return"@,
            Keyword::Super => "super"@,
            Keyword::Switch => "switch"@,
            Keyword::This => "this"@,
            Keyword::Throw => "throw"@,
            Keyword::Try => "try"@,
            Keyword::TypeOf => "typeof"@,
            Keyword::Var => "var"@,
            Keyword::Void => "void"@,
            Keyword::While => "while"@,
            Keyword::With => "with"@,
            Keyword::Yield => "yield"@,
        }
    }

    /// The keyword as it is spelled in source text.
    pub fn as_str(self) -> (spelling: &'static str)
        ensures
            spelling@ == self.text(),
    {
        match self {
            Keyword::Await => "await",
            Keyword::Break => "break",
            Keyword::Case => "case",
            Keyword::Catch => "catch",
            Keyword::Class => "class",
            Keyword::Const => "const",
            Keyword::Continue => "continue",
            Keyword::Debugger => "debugger",
            Keyword::Default => "default",
            Keyword::Delete => "delete",
            Keyword::Do => "do",
            Keyword::Else => "else",
            Keyword::Enum => "enum",
            Keyword::Export => "export",
            Keyword::Extends => "extends",
            Keyword::Finally => "finally",
            Keyword::For => "for",
            Keyword::Function => "function",
            Keyword::If => "if",
            Keyword::Import => "import",
            Keyword::In => "in",
            Keyword::InstanceOf => "instanceof",
            Keyword::Let => "let",
            Keyword::New => "new",
            Keyword::Return => "return",
            Keyword::Super => "super",
            Keyword::Switch => "switch",
            Keyword::This => "this",
            Keyword::Throw => "throw",
            Keyword::Try => "try",
            Keyword::TypeOf => "typeof",
            Keyword::Var => "var",
            Keyword::Void => "void",
            Keyword::While => "while",
            Keyword::With => "with",
            Keyword::Yield => "yield",
        }
    }
}

} // verus!
