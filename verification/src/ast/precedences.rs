//! The binding powers of the operators.

use crate::lexer::token::{Token, TokenKind};
use vstd::prelude::*;

verus! {

/// Binding powers of the operators, from the loosest to the tightest.
#[derive(Clone, Copy, Debug, PartialEq, Eq, Structural)]
pub enum Precedences {
    Lowest,
    OrAnd,
    Equals,
    LessGreater,
    Sum,
    Product,
    Prefix,
    Call,
    Assign,
}

impl Precedences {
    /// Position on the ladder, `Lowest` being 0.
    pub open spec fn rank(self) -> nat {
        match self {
            Precedences::Lowest => 0,
            Precedences::OrAnd => 1,
            Precedences::Equals => 2,
            Precedences::LessGreater => 3,
            Precedences::Sum => 4,
            Precedences::Product => 5,
            Precedences::Prefix => 6,
            Precedences::Call => 7,
            Precedences::Assign => 8,
        }
    }

    /// The rank as a machine integer.
    pub fn level(self) -> (r: u8)
        ensures
            r == self.rank(),
    {
        match self {
            Precedences::Lowest => 0,
            Precedences::OrAnd => 1,
            Precedences::Equals => 2,
            Precedences::LessGreater => 3,
            Precedences::Sum => 4,
            Precedences::Product => 5,
            Precedences::Prefix => 6,
            Precedences::Call => 7,
            Precedences::Assign => 8,
        }
    }
}

impl TokenKind {
    /// The binding power of a token of this kind when it stands after an operand.
    pub open spec fn precedence(self) -> Precedences {
        match self {
            TokenKind::Plus | TokenKind::Minus => Precedences::Sum,
            TokenKind::Or | TokenKind::And => Precedences::OrAnd,
            TokenKind::Asterisk | TokenKind::Slash | TokenKind::Modular => Precedences::Product,
            TokenKind::Equal | TokenKind::NotEqual => Precedences::Equals,
            TokenKind::Lt | TokenKind::Gt | TokenKind::Lte | TokenKind::Gte => Precedences::LessGreater,
            TokenKind::Bang => Precedences::Prefix,
            TokenKind::LParent => Precedences::Call,
            TokenKind::Assign => Precedences::Assign,
            _ => Precedences::Lowest,
        }
    }
}

impl Token {
    /// The binding power of this token when it stands after an operand.
    pub fn precedence(&self) -> (p: Precedences)
        ensures
            p == self@.kind.precedence(),
    {
        match self {
            Token::Plus | Token::Minus => Precedences::Sum,
            Token::Or | Token::And => Precedences::OrAnd,
            Token::Asterisk | Token::Slash | Token::Modular => Precedences::Product,
            Token::Equal | Token::NotEqual => Precedences::Equals,
            Token::Lt | Token::Gt | Token::Lte | Token::Gte => Precedences::LessGreater,
            Token::Bang => Precedences::Prefix,
            Token::LParent => Precedences::Call,
            Token::Assign => Precedences::Assign,
            _ => Precedences::Lowest,
        }
    }
}

} // verus!
