//! Operators and delimiters of the language.

use vstd::prelude::*;

verus! {

/// A punctuation token. The set is closed: the tokenizer never produces any
/// other.
#[derive(Clone, Copy, Debug, PartialEq, Eq, Structural)]
pub enum Punctuator {
    /// `+`
    Add,
    /// `&`
    And,
    /// `=>`
    Arrow,
    /// `=`
    Assign,
    /// `&&`
    BoolAnd,
    /// `||`
    BoolOr,
    /// `}`
    CloseBlock,
    /// `]`
    CloseBracket,
    /// `)`
    CloseParen,
    /// `:`
    Colon,
    /// `,`
    Comma,
    /// `--`
    Dec,
    /// `/`
    Div,
    /// `.`
    Dot,
    /// `==`
    Eq,
    /// `**`
    Exp,
    /// `>`
    GreaterThan,
    /// `>=`
    GreaterThanOrEq,
    /// `++`
    Inc,
    /// `<<`
    LeftSh,
    /// `<`
    LessThan,
    /// `<=`
    LessThanOrEq,
    /// `%`
    Mod,
    /// `*`
    Mul,
    /// `~`
    Neg,
    /// `!`
    Not,
    /// `!=`
    NotEq,
    /// `{`
    OpenBlock,
    /// `[`
    OpenBracket,
    /// `(`
    OpenParen,
    /// `|`
    Or,
    /// `?`
    Question,
    /// `>>`
    RightSh,
    /// `;`
    Semicolon,
    /// `...`
    Spread,
    /// `===`
    StrictEq,
    /// `!==`
    StrictNotEq,
    /// `-`
    Sub,
    /// `>>>`
    URightSh,
    /// `^`
    Xor,
}

impl Punctuator {
    /// The punctuator as it is spelled in source text.
    pub open spec fn text(self) -> Seq<char> {
        match self {
            Punctuator::Add => "+"@,
            Punctuator::And => "&"@,
            Punctuator::Arrow => "=>"@,
            Punctuator::Assign => "="@,
            Punctuator::BoolAnd => "&&"@,
            Punctuator::BoolOr => "||"@,
            Punctuator::CloseBlock => "}"@,
            Punctuator::CloseBracket => "]"@,
            Punctuator::CloseParen => ")"@,
            Punctuator::Colon => ":"@,
            Punctuator::Comma => ","@,
            Punctuator::Dec => "--"@,
            Punctuator::Div => "/"@,
            Punctuator::Dot => "."@,
            Punctuator::Eq => "=="@,
            Punctuator::Exp => "**"@,
            Punctuator::GreaterThan => ">"@,
            Punctuator::GreaterThanOrEq => ">="@,
            Punctuator::Inc => "++"@,
            Punctuator::LeftSh => "<<"@,
            Punctuator::LessThan => "<"@,
            Punctuator::LessThanOrEq => "<="@,
            Punctuator::Mod => "%"@,
            Punctuator::Mul => "*"@,
            Punctuator::Neg => "~"@,
            Punctuator::Not => "!"@,
            Punctuator::NotEq => "!="@,
            Punctuator::OpenBlock => "{"@,
            Punctuator::OpenBracket => "["@,
            Punctuator::OpenParen => "("@,
            Punctuator::Or => "|"@,
            Punctuator::Question => "?"@,
            Punctuator::RightSh => ">>"@,
            Punctuator::Semicolon => ";"@,
            Punctuator::Spread => "..."@,
            Punctuator::StrictEq => "==="@,
            Punctuator::StrictNotEq => "!=="@,
            Punctuator::Sub => "-"@,
            Punctuator::URightSh => ">>>"@,
            Punctuator::Xor => "^"@,
        }
    }

    /// The punctuator as it is spelled in source text.
    pub fn as_str(self) -> (spelling: &'static str)
        ensures
            spelling@ == self.text(),
    {
        match self {
            Punctuator::Add => "+",
            Punctuator::And => "&",
            Punctuator::Arrow => "=>",
            Punctuator::Assign => "=",
            Punctuator::BoolAnd => "&&",
            Punctuator::BoolOr => "||",
            Punctuator::CloseBlock => "}",
            Punctuator::CloseBracket => "]",
            Punctuator::CloseParen => ")",
            Punctuator::Colon => ":",
            Punctuator::Comma => ",",
            Punctuator::Dec => "--",
            Punctuator::Div => "/",
            Punctuator::Dot => ".",
            Punctuator::Eq => "==",
            Punctuator::Exp => "**",
            Punctuator::GreaterThan => ">",
            Punctuator::GreaterThanOrEq => ">=",
            Punctuator::Inc => "++",
            Punctuator::LeftSh => "<<",
            Punctuator::LessThan => "<",
            Punctuator::LessThanOrEq => "<=",
            Punctuator::Mod => "%",
            Punctuator::Mul => "*",
            Punctuator::Neg => "~",
            Punctuator::Not => "!",
            Punctuator::NotEq => "!=",
            Punctuator::OpenBlock => "{",
            Punctuator::OpenBracket => "[",
            Punctuator::OpenParen => "(",
            Punctuator::Or => "|",
            Punctuator::Question => "?",
            Punctuator::RightSh => ">>",
            Punctuator::Semicolon => ";",
            Punctuator::Spread => "...",
            Punctuator::StrictEq => "===",
            Punctuator::StrictNotEq => "!==",
            Punctuator::Sub => "-",
            Punctuator::URightSh => ">>>",
            Punctuator::Xor => "^",
        }
    }
}

} // verus!
