use crate::scanner::position::Position;
use crate::text::{copy_str, same};
use vstd::prelude::*;

verus! {

/// The kinds of token.
#[derive(Debug, Clone, Copy, PartialEq, Eq, Structural, Hash)]
pub enum Kind {
    // Symbols
    LeftParen,
    RightParen,
    LeftSquare,
    RightSquare,
    Minus,
    Plus,
    Semicolon,
    Slash,
    Star,
    Bang,
    Comma,
    // One or two character tokens
    Equal,
    Colon,
    ColonEqual,
    Greater,
    GreaterEqual,
    Less,
    LessEqual,
    // Literals
    Identifier,
    LitString,
    LitInt,
    LitReal,
    // Types
    TString,
    TInt,
    TBool,
    TReal,
    TArray,
    // Keywords
    And,
    Or,
    False,
    If,
    Then,
    Else,
    Print,
    Read,
    True,
    Var,
    In,
    Do,
    End,
    Begin,
    Assert,
    Program,
    Function,
    Procedure,
    Of,
    Return,
    While,
    // End of file, and what the scanner drops
    Eof,
    Whites,
    Comment,
    Eol,
    // What a parser holds before it has read a token
    InitParser,
}

impl Kind {
    /// How the kind is written in messages.
    pub open spec fn text(self) -> Seq<char> {
        match self {
            Kind::LeftParen => "("@,
            Kind::RightParen => ")"@,
            Kind::LeftSquare => "["@,
            Kind::RightSquare => "]"@,
            Kind::Minus => "-"@,
            Kind::Plus => "+"@,
            Kind::Semicolon => ";"@,
            Kind::Slash => "/"@,
            Kind::Star => "*"@,
            Kind::Bang => "!"@,
            Kind::Comma => ","@,
            Kind::Equal => "="@,
            Kind::Colon => ":"@,
            Kind::ColonEqual => ":="@,
            Kind::Greater => ">"@,
            Kind::GreaterEqual => ">="@,
            Kind::Less => "<"@,
            Kind::LessEqual => "<="@,
            Kind::Identifier => "Identifier"@,
            Kind::LitString => "\"String\""@,
            Kind::LitInt => "literal int"@,
            Kind::LitReal => "literal real"@,
            Kind::TString => "type string"@,
            Kind::TInt => "type int"@,
            Kind::TBool => "type bool"@,
            Kind::TReal => "type real"@,
            Kind::TArray => "array"@,
            Kind::And => "and"@,
            Kind::Or => "or"@,
            Kind::False => "false"@,
            Kind::If => "if"@,
            Kind::Then => "then"@,
            Kind::Else => "else"@,
            Kind::Print => "print"@,
            Kind::Read => "read"@,
            Kind::True => "true"@,
            Kind::Var => "var"@,
            Kind::In => "in"@,
            Kind::Do => "do"@,
            Kind::End => "end"@,
            Kind::Begin => "begin"@,
            Kind::Assert => "assert"@,
            Kind::Program => "Program"@,
            Kind::Function => "function"@,
            Kind::Procedure => "procedure"@,
            Kind::Of => "of"@,
            Kind::Return => "return"@,
            Kind::While => "while"@,
            Kind::Eof => "End Of File"@,
            Kind::Whites => " "@,
            Kind::Comment => "comment"@,
            Kind::Eol => "End of Line"@,
            Kind::InitParser => ""@,
        }
    }

    pub fn to_string(&self) -> (s: String)
        ensures
            s@ == self.text(),
    {
        match self {
            Kind::LeftParen => copy_str("("),
            Kind::RightParen => copy_str(")"),
            Kind::LeftSquare => copy_str("["),
            Kind::RightSquare => copy_str("]"),
            Kind::Minus => copy_str("-"),
            Kind::Plus => copy_str("+"),
            Kind::Semicolon => copy_str(";"),
            Kind::Slash => copy_str("/"),
            Kind::Star => copy_str("*"),
            Kind::Bang => copy_str("!"),
            Kind::Comma => copy_str(","),
            Kind::Equal => copy_str("="),
            Kind::Colon => copy_str(":"),
            Kind::ColonEqual => copy_str(":="),
            Kind::Greater => copy_str(">"),
            Kind::GreaterEqual => copy_str(">="),
            Kind::Less => copy_str("<"),
            Kind::LessEqual => copy_str("<="),
            Kind::Identifier => copy_str("Identifier"),
            Kind::LitString => copy_str("\"String\""),
            Kind::LitInt => copy_str("literal int"),
            Kind::LitReal => copy_str("literal real"),
            Kind::TString => copy_str("type string"),
            Kind::TInt => copy_str("type int"),
            Kind::TBool => copy_str("type bool"),
            Kind::TReal => copy_str("type real"),
            Kind::TArray => copy_str("array"),
            Kind::And => copy_str("and"),
            Kind::Or => copy_str("or"),
            Kind::False => copy_str("false"),
            Kind::If => copy_str("if"),
            Kind::Then => copy_str("then"),
            Kind::Else => copy_str("else"),
            Kind::Print => copy_str("print"),
            Kind::Read => copy_str("read"),
            Kind::True => copy_str("true"),
            Kind::Var => copy_str("var"),
            Kind::In => copy_str("in"),
            Kind::Do => copy_str("do"),
            Kind::End => copy_str("end"),
            Kind::Begin => copy_str("begin"),
            Kind::Assert => copy_str("assert"),
            Kind::Program => copy_str("Program"),
            Kind::Function => copy_str("function"),
            Kind::Procedure => copy_str("procedure"),
            Kind::Of => copy_str("of"),
            Kind::Return => copy_str("return"),
            Kind::While => copy_str("while"),
            Kind::Eof => copy_str("End Of File"),
            Kind::Whites => copy_str(" "),
            Kind::Comment => copy_str("comment"),
            Kind::Eol => copy_str("End of Line"),
            Kind::InitParser => copy_str(""),
        }
    }

    /// The kind of a word: that of the keyword it spells, matched
    /// exactly and with regard to case, else `Identifier`.
    pub open spec fn of_word(w: Seq<char>) -> Kind {
        if w == "var"@ {
            Kind::Var
        } else if w == "in"@ {
            Kind::In
        } else if w == "do"@ {
            Kind::Do
        } else if w == "end"@ {
            Kind::End
        } else if w == "begin"@ {
            Kind::Begin
        } else if w == "read"@ {
            Kind::Read
        } else if w == "writeln"@ {
            Kind::Print
        } else if w == "assert"@ {
            Kind::Assert
        } else if w == "int"@ {
            Kind::TInt
        } else if w == "real"@ {
            Kind::TReal
        } else if w == "string"@ {
            Kind::TString
        } else if w == "bool"@ {
            Kind::TBool
        } else if w == "if"@ {
            Kind::If
        } else if w == "then"@ {
            Kind::Then
        } else if w == "else"@ {
            Kind::Else
        } else if w == "false"@ {
            Kind::False
        } else if w == "true"@ {
            Kind::True
        } else if w == "program"@ {
            Kind::Program
        } else if w == "function"@ {
            Kind::Function
        } else if w == "procedure"@ {
            Kind::Procedure
        } else if w == "array"@ {
            Kind::TArray
        } else if w == "of"@ {
            Kind::Of
        } else if w == "return"@ {
            Kind::Return
        } else if w == "while"@ {
            Kind::While
        } else if w == "or"@ {
            Kind::Or
        } else if w == "and"@ {
            Kind::And
        } else {
            Kind::Identifier
        }
    }

    pub fn from_word(w: &str) -> (k: Kind)
        ensures
            k == Kind::of_word(w@),
    {
        if same(w, "var") {
            Kind::Var
        } else if same(w, "in") {
            Kind::In
        } else if same(w, "do") {
            Kind::Do
        } else if same(w, "end") {
            Kind::End
        } else if same(w, "begin") {
            Kind::Begin
        } else if same(w, "read") {
            Kind::Read
        } else if same(w, "writeln") {
            Kind::Print
        } else if same(w, "assert") {
            Kind::Assert
        } else if same(w, "int") {
            Kind::TInt
        } else if same(w, "real") {
            Kind::TReal
        } else if same(w, "string") {
            Kind::TString
        } else if same(w, "bool") {
            Kind::TBool
        } else if same(w, "if") {
            Kind::If
        } else if same(w, "then") {
            Kind::Then
        } else if same(w, "else") {
            Kind::Else
        } else if same(w, "false") {
            Kind::False
        } else if same(w, "true") {
            Kind::True
        } else if same(w, "program") {
            Kind::Program
        } else if same(w, "function") {
            Kind::Function
        } else if same(w, "procedure") {
            Kind::Procedure
        } else if same(w, "array") {
            Kind::TArray
        } else if same(w, "of") {
            Kind::Of
        } else if same(w, "return") {
            Kind::Return
        } else if same(w, "while") {
            Kind::While
        } else if same(w, "or") {
            Kind::Or
        } else if same(w, "and") {
            Kind::And
        } else {
            Kind::Identifier
        }
    }
}

/// A token: its kind, the text it was scanned from, and where.
#[derive(Debug, PartialEq, Eq, Hash)]
pub struct Token {
    pub kind: Kind,
    pub lexeme: String,
    pub position: Position,
}

/// A token with its lexeme as a sequence of characters.
pub ghost struct TokenView {
    pub kind: Kind,
    pub lexeme: Seq<char>,
    pub position: Position,
}

impl View for Token {
    type V = TokenView;

    open spec fn view(&self) -> TokenView {
        TokenView { kind: self.kind, lexeme: self.lexeme@, position: self.position }
    }
}

impl Clone for Token {
    fn clone(&self) -> (t: Self)
        ensures
            t == *self,
    {
        Token { kind: self.kind, lexeme: self.lexeme.clone(), position: self.position }
    }
}

impl Token {
    pub fn new(kind: Kind, lexeme: String, position: Position) -> (t: Token)
        ensures
            t == (Token { kind, lexeme, position }),
    {
        Token { kind, lexeme, position }
    }

    pub fn to_string(&self) -> (s: String)
        ensures
            s@ == self.kind.text(),
    {
        self.kind.to_string()
    }
}

} // verus!
