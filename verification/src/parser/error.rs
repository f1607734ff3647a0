//! The errors of the parser.

use crate::lexer::token::{Token, TokenView};
use vstd::prelude::*;
use vstd::string::StringExecFns;

verus! {

/// The mathematical form of a parse error.
pub enum ParseErrorView {
    UnexpectedToken(TokenView),
    RanOutOfTokens,
}

/// The first mismatch that the parser met. Parsing does not go on after it.
#[derive(Debug)]
pub enum ParseError {
    /// The token that stands where the grammar allows none of its kind.
    UnexpectedToken(Token),
    /// The tokens ended in the middle of a construct.
    RanOutOfTokens,
}

impl ParseErrorView {
    /// The message of the error.
    pub open spec fn shown(self) -> Seq<char> {
        match self {
            ParseErrorView::UnexpectedToken(token) => "Parser didnt expect token: "@
                + token.shown(),
            ParseErrorView::RanOutOfTokens => "Ran out of tokens!"@,
        }
    }
}

impl ParseError {
    pub open spec fn view(&self) -> ParseErrorView {
        match self {
            ParseError::UnexpectedToken(token) => ParseErrorView::UnexpectedToken(token@),
            ParseError::RanOutOfTokens => ParseErrorView::RanOutOfTokens,
        }
    }

    /// The message of the error.
    pub fn to_string(&self) -> (message: String)
        ensures
            message@ == self@.shown(),
    {
        match self {
            ParseError::UnexpectedToken(token) => String::from_str(
                "Parser didnt expect token: ",
            ).concat(token.to_string().as_str()),
            ParseError::RanOutOfTokens => String::from_str("Ran out of tokens!"),
        }
    }
}

} // verus!
