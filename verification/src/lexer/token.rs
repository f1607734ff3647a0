//! The tokens of the language, their kinds and their spellings.

use vstd::prelude::*;
use vstd::string::StringExecFns;

verus! {

/// The tag of a token, without the text that identifiers and literals carry.
#[derive(Clone, Copy, Debug, PartialEq, Eq, Structural)]
pub enum TokenKind {
    Illegal,
    Eof,
    Ident,
    Int,
    String,
    Assign,
    Plus,
    Minus,
    Asterisk,
    Slash,
    Modular,
    Bang,
    Equal,
    NotEqual,
    Lt,
    Gt,
    Lte,
    Gte,
    Or,
    And,
    Comma,
    Semicolon,
    LParent,
    RParent,
    LBrace,
    RBrace,
    LBracket,
    RBracket,
    Function,
    Let,
    True,
    False,
    If,
    Else,
    Return,
    Error,
    While,
}

/// A single token of a program.
#[derive(Debug, PartialEq, Eq)]
pub enum Token {
    // Special tokens
    Illegal,
    Eof,
    // Identifiers and literals, with their raw text
    Ident(String),
    Int(String),
    String(String),
    // Arithmetic operators
    Assign,
    Plus,
    Minus,
    Asterisk,
    Slash,
    Modular,
    // Logic operators
    Bang,
    Equal,
    NotEqual,
    Lt,
    Gt,
    Lte,
    Gte,
    Or,
    And,
    // Separators
    Comma,
    Semicolon,
    // Brackets
    LParent,
    RParent,
    LBrace,
    RBrace,
    LBracket,
    RBracket,
    // Keywords
    Function,
    Let,
    True,
    False,
    If,
    Else,
    Return,
    Error,
    While,
}

/// What a token is: its tag, and the raw text it carries (empty unless the
/// tag is `Ident`, `Int` or `String`).
pub struct TokenView {
    pub kind: TokenKind,
    pub text: Seq<char>,
}

impl TokenKind {
    /// Whether tokens of this kind carry text.
    pub open spec fn has_text(self) -> bool {
        self == TokenKind::Ident || self == TokenKind::Int || self == TokenKind::String
    }

    /// The fixed spelling of a kind that carries no text; empty for those that do.
    pub open spec fn spelling(self) -> Seq<char> {
        match self {
            TokenKind::Illegal => "Illegal"@,
            TokenKind::Eof => "EOF"@,
            TokenKind::Ident => Seq::empty(),
            TokenKind::Int => Seq::empty(),
            TokenKind::String => Seq::empty(),
            TokenKind::Assign => "="@,
            TokenKind::Plus => "+"@,
            TokenKind::Minus => "-"@,
            TokenKind::Asterisk => "*"@,
            TokenKind::Slash => "/"@,
            TokenKind::Modular => "%"@,
            TokenKind::Bang => "!"@,
            TokenKind::Equal => "=="@,
            TokenKind::NotEqual => "!="@,
            TokenKind::Lt => "<"@,
            TokenKind::Gt => ">"@,
            TokenKind::Lte => "<="@,
            TokenKind::Gte => ">="@,
            TokenKind::Or => "||"@,
            TokenKind::And => "&&"@,
            TokenKind::Comma => ","@,
            TokenKind::Semicolon => ";"@,
            TokenKind::LParent => "("@,
            TokenKind::RParent => ")"@,
            TokenKind::LBrace => "{"@,
            TokenKind::RBrace => "}"@,
            TokenKind::LBracket => "["@,
            TokenKind::RBracket => "]"@,
            TokenKind::Function => "function"@,
            TokenKind::Let => "let"@,
            TokenKind::True => "true"@,
            TokenKind::False => "false"@,
            TokenKind::If => "if"@,
            TokenKind::Else => "else"@,
            TokenKind::Return => "ret"@,
            TokenKind::Error => "err"@,
            TokenKind::While => "while"@,
        }
    }
}

impl TokenView {
    /// The token as it is shown to a reader: the carried text for identifiers
    /// and literals, the fixed spelling for everything else.
    pub open spec fn shown(self) -> Seq<char> {
        if self.kind.has_text() {
            self.text
        } else {
            self.kind.spelling()
        }
    }

    /// A token of a kind that carries no text.
    pub open spec fn plain(kind: TokenKind) -> TokenView {
        TokenView { kind, text: Seq::empty() }
    }
}

impl Token {
    pub open spec fn spec_kind(&self) -> TokenKind {
        match self {
            Token::Illegal => TokenKind::Illegal,
            Token::Eof => TokenKind::Eof,
            Token::Ident(_) => TokenKind::Ident,
            Token::Int(_) => TokenKind::Int,
            Token::String(_) => TokenKind::String,
            Token::Assign => TokenKind::Assign,
            Token::Plus => TokenKind::Plus,
            Token::Minus => TokenKind::Minus,
            Token::Asterisk => TokenKind::Asterisk,
            Token::Slash => TokenKind::Slash,
            Token::Modular => TokenKind::Modular,
            Token::Bang => TokenKind::Bang,
            Token::Equal => TokenKind::Equal,
            Token::NotEqual => TokenKind::NotEqual,
            Token::Lt => TokenKind::Lt,
            Token::Gt => TokenKind::Gt,
            Token::Lte => TokenKind::Lte,
            Token::Gte => TokenKind::Gte,
            Token::Or => TokenKind::Or,
            Token::And => TokenKind::And,
            Token::Comma => TokenKind::Comma,
            Token::Semicolon => TokenKind::Semicolon,
            Token::LParent => TokenKind::LParent,
            Token::RParent => TokenKind::RParent,
            Token::LBrace => TokenKind::LBrace,
            Token::RBrace => TokenKind::RBrace,
            Token::LBracket => TokenKind::LBracket,
            Token::RBracket => TokenKind::RBracket,
            Token::Function => TokenKind::Function,
            Token::Let => TokenKind::Let,
            Token::True => TokenKind::True,
            Token::False => TokenKind::False,
            Token::If => TokenKind::If,
            Token::Else => TokenKind::Else,
            Token::Return => TokenKind::Return,
            Token::Error => TokenKind::Error,
            Token::While => TokenKind::While,
        }
    }

    /// The text that an identifier or a literal carries; empty for every other token.
    pub open spec fn text(&self) -> Seq<char> {
        match self {
            Token::Ident(val) => val@,
            Token::Int(val) => val@,
            Token::String(val) => val@,
            _ => Seq::empty(),
        }
    }

    pub open spec fn view(&self) -> TokenView {
        TokenView { kind: self.spec_kind(), text: self.text() }
    }

    /// The tag of this token.
    #[verifier::when_used_as_spec(spec_kind)]
    pub fn kind(&self) -> (k: TokenKind)
        ensures
            k == self.spec_kind(),
    {
        match self {
            Token::Illegal => TokenKind::Illegal,
            Token::Eof => TokenKind::Eof,
            Token::Ident(_) => TokenKind::Ident,
            Token::Int(_) => TokenKind::Int,
            Token::String(_) => TokenKind::String,
            Token::Assign => TokenKind::Assign,
            Token::Plus => TokenKind::Plus,
            Token::Minus => TokenKind::Minus,
            Token::Asterisk => TokenKind::Asterisk,
            Token::Slash => TokenKind::Slash,
            Token::Modular => TokenKind::Modular,
            Token::Bang => TokenKind::Bang,
            Token::Equal => TokenKind::Equal,
            Token::NotEqual => TokenKind::NotEqual,
            Token::Lt => TokenKind::Lt,
            Token::Gt => TokenKind::Gt,
            Token::Lte => TokenKind::Lte,
            Token::Gte => TokenKind::Gte,
            Token::Or => TokenKind::Or,
            Token::And => TokenKind::And,
            Token::Comma => TokenKind::Comma,
            Token::Semicolon => TokenKind::Semicolon,
            Token::LParent => TokenKind::LParent,
            Token::RParent => TokenKind::RParent,
            Token::LBrace => TokenKind::LBrace,
            Token::RBrace => TokenKind::RBrace,
            Token::LBracket => TokenKind::LBracket,
            Token::RBracket => TokenKind::RBracket,
            Token::Function => TokenKind::Function,
            Token::Let => TokenKind::Let,
            Token::True => TokenKind::True,
            Token::False => TokenKind::False,
            Token::If => TokenKind::If,
            Token::Else => TokenKind::Else,
            Token::Return => TokenKind::Return,
            Token::Error => TokenKind::Error,
            Token::While => TokenKind::While,
        }
    }

    /// The raw text of an identifier or a literal.
    pub fn value(&self) -> (text: String)
        requires
            self.spec_kind().has_text(),
        ensures
            text@ == self@.text,
    {
        match self {
            Token::Ident(val) => val.clone(),
            Token::Int(val) => val.clone(),
            Token::String(val) => val.clone(),
            _ => String::new(),
        }
    }

    /// Whether two tokens have the same tag, whatever text they carry.
    pub fn variant_is_equal(a: &Token, b: &Token) -> (same: bool)
        ensures
            same == (a@.kind == b@.kind),
    {
        a.kind() == b.kind()
    }

    /// The token as it is shown to a reader.
    pub fn to_string(&self) -> (shown: String)
        ensures
            shown@ == self@.shown(),
    {
        match self {
            Token::Illegal => String::from_str("Illegal"),
            Token::Eof => String::from_str("EOF"),
            Token::Ident(name) => name.clone(),
            Token::Int(val) => val.clone(),
            Token::String(val) => val.clone(),
            Token::Assign => String::from_str("="),
            Token::Plus => String::from_str("+"),
            Token::Minus => String::from_str("-"),
            Token::Asterisk => String::from_str("*"),
            Token::Slash => String::from_str("/"),
            Token::Modular => String::from_str("%"),
            Token::Bang => String::from_str("!"),
            Token::Equal => String::from_str("=="),
            Token::NotEqual => String::from_str("!="),
            Token::Lt => String::from_str("<"),
            Token::Gt => String::from_str(">"),
            Token::Lte => String::from_str("<="),
            Token::Gte => String::from_str(">="),
            Token::Or => String::from_str("||"),
            Token::And => String::from_str("&&"),
            Token::Comma => String::from_str(","),
            Token::Semicolon => String::from_str(";"),
            Token::LParent => String::from_str("("),
            Token::RParent => String::from_str(")"),
            Token::LBrace => String::from_str("{"),
            Token::RBrace => String::from_str("}"),
            Token::LBracket => String::from_str("["),
            Token::RBracket => String::from_str("]"),
            Token::Function => String::from_str("function"),
            Token::Let => String::from_str("let"),
            Token::True => String::from_str("true"),
            Token::False => String::from_str("false"),
            Token::If => String::from_str("if"),
            Token::Else => String::from_str("else"),
            Token::Return => String::from_str("ret"),
            Token::Error => String::from_str("err"),
            Token::While => String::from_str("while"),
        }
    }
}

impl Clone for Token {
    fn clone(&self) -> (copy: Self)
        ensures
            copy@ == self@,
    {
        match self {
            Token::Illegal => Token::Illegal,
            Token::Eof => Token::Eof,
            Token::Ident(val) => Token::Ident(val.clone()),
            Token::Int(val) => Token::Int(val.clone()),
            Token::String(val) => Token::String(val.clone()),
            Token::Assign => Token::Assign,
            Token::Plus => Token::Plus,
            Token::Minus => Token::Minus,
            Token::Asterisk => Token::Asterisk,
            Token::Slash => Token::Slash,
            Token::Modular => Token::Modular,
            Token::Bang => Token::Bang,
            Token::Equal => Token::Equal,
            Token::NotEqual => Token::NotEqual,
            Token::Lt => Token::Lt,
            Token::Gt => Token::Gt,
            Token::Lte => Token::Lte,
            Token::Gte => Token::Gte,
            Token::Or => Token::Or,
            Token::And => Token::And,
            Token::Comma => Token::Comma,
            Token::Semicolon => Token::Semicolon,
            Token::LParent => Token::LParent,
            Token::RParent => Token::RParent,
            Token::LBrace => Token::LBrace,
            Token::RBrace => Token::RBrace,
            Token::LBracket => Token::LBracket,
            Token::RBracket => Token::RBracket,
            Token::Function => Token::Function,
            Token::Let => Token::Let,
            Token::True => Token::True,
            Token::False => Token::False,
            Token::If => Token::If,
            Token::Else => Token::Else,
            Token::Return => Token::Return,
            Token::Error => Token::Error,
            Token::While => Token::While,
        }
    }
}

} // verus!
