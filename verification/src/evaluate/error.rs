//! The faults that end an evaluation.

use crate::evaluate::object::{Object, ValueView};
use crate::lexer::token::{Token, TokenView};
use vstd::prelude::*;
use vstd::string::StringExecFns;

verus! {

/// The mathematical form of a runtime error.
pub enum ErrorView {
    IllegalOperation(TokenView, ValueView),
    MixedTypeOperation(TokenView, ValueView, ValueView),
    UnexpectedObject(Seq<char>),
    UnknownIdentifier(Seq<char>),
    DifferentAmountOfArguments,
    CannotCallNonFunction,
    DivisionByZero,
    IntegerOverflow,
    InvalidInteger(Seq<char>),
    OutOfFuel,
    NoInput,
}

impl ErrorView {
    /// The message of the error: operators by their spelling, values as they are shown.
    pub open spec fn shown(self) -> Seq<char> {
        match self {
            ErrorView::IllegalOperation(operator, operand) => "Tried to apply illegal operation "@
                + operator.shown() + " to "@ + operand.shown() + "!"@,
            ErrorView::MixedTypeOperation(operator, left, right) => "Tried to apply operation "@
                + operator.shown() + " between not matching values "@ + left.shown() + " and "@
                + right.shown() + "!"@,
            ErrorView::UnexpectedObject(expected) => "Expected "@ + expected + "!"@,
            ErrorView::UnknownIdentifier(name) => "Found unknown identifier "@ + name + "!"@,
            ErrorView::DifferentAmountOfArguments =>
                "Called a function with another number of arguments than it takes!"@,
            ErrorView::CannotCallNonFunction => "Tried to call a value that is no function!"@,
            ErrorView::DivisionByZero => "Tried to divide by zero!"@,
            ErrorView::IntegerOverflow => "The result does not fit an integer!"@,
            ErrorView::InvalidInteger(text) => "Cannot read "@ + text + " as an integer!"@,
            ErrorView::OutOfFuel => "Ran out of fuel!"@,
            ErrorView::NoInput => "Ran out of input!"@,
        }
    }
}

/// A fault that ends an evaluation.
#[derive(Debug)]
pub enum EvalError {
    /// An operator was applied to an operand it does not accept.
    IllegalOperation(Token, Object),
    /// A binary operator was applied to operands of two different kinds.
    MixedTypeOperation(Token, Object, Object),
    /// A value of the named kind was expected.
    UnexpectedObject(String),
    /// The name is bound neither to a built-in nor to a variable.
    UnknownIdentifier(String),
    /// A call gave another number of arguments than the callee takes.
    DifferentAmountOfArguments,
    /// The callee is neither a function nor a built-in.
    CannotCallNonFunction,
    /// The right operand of `/` or `%` was zero.
    DivisionByZero,
    /// The result of an integer operation does not fit the integer type.
    IntegerOverflow,
    /// The text of an integer literal is not an integer that fits the integer type.
    InvalidInteger(String),
    /// The budget of calls and loop rounds was used up.
    OutOfFuel,
    /// A line was asked for when none was left to read.
    NoInput,
}

impl EvalError {
    pub open spec fn view(&self) -> ErrorView {
        match self {
            EvalError::IllegalOperation(operator, operand) => ErrorView::IllegalOperation(
                operator@,
                operand@,
            ),
            EvalError::MixedTypeOperation(operator, left, right) => ErrorView::MixedTypeOperation(
                operator@,
                left@,
                right@,
            ),
            EvalError::UnexpectedObject(expected) => ErrorView::UnexpectedObject(expected@),
            EvalError::UnknownIdentifier(name) => ErrorView::UnknownIdentifier(name@),
            EvalError::DifferentAmountOfArguments => ErrorView::DifferentAmountOfArguments,
            EvalError::CannotCallNonFunction => ErrorView::CannotCallNonFunction,
            EvalError::DivisionByZero => ErrorView::DivisionByZero,
            EvalError::IntegerOverflow => ErrorView::IntegerOverflow,
            EvalError::InvalidInteger(text) => ErrorView::InvalidInteger(text@),
            EvalError::OutOfFuel => ErrorView::OutOfFuel,
            EvalError::NoInput => ErrorView::NoInput,
        }
    }
}

impl EvalError {
    /// The message of the error.
    pub fn to_string(&self) -> (message: String)
        ensures
            message@ == self@.shown(),
    {
        match self {
            EvalError::IllegalOperation(operator, operand) => String::from_str(
                "Tried to apply illegal operation ",
            ).concat(operator.to_string().as_str()).concat(" to ").concat(
                operand.to_string().as_str(),
            ).concat("!"),
            EvalError::MixedTypeOperation(operator, left, right) => String::from_str(
                "Tried to apply operation ",
            ).concat(operator.to_string().as_str()).concat(" between not matching values ").concat(
                left.to_string().as_str(),
            ).concat(" and ").concat(right.to_string().as_str()).concat("!"),
            EvalError::UnexpectedObject(expected) => String::from_str("Expected ").concat(
                expected.as_str(),
            ).concat("!"),
            EvalError::UnknownIdentifier(name) => String::from_str(
                "Found unknown identifier ",
            ).concat(name.as_str()).concat("!"),
            EvalError::DifferentAmountOfArguments => String::from_str(
                "Called a function with another number of arguments than it takes!",
            ),
            EvalError::CannotCallNonFunction => String::from_str(
                "Tried to call a value that is no function!",
            ),
            EvalError::DivisionByZero => String::from_str("Tried to divide by zero!"),
            EvalError::IntegerOverflow => String::from_str("The result does not fit an integer!"),
            EvalError::InvalidInteger(text) => String::from_str("Cannot read ").concat(
                text.as_str(),
            ).concat(" as an integer!"),
            EvalError::OutOfFuel => String::from_str("Ran out of fuel!"),
            EvalError::NoInput => String::from_str("Ran out of input!"),
        }
    }
}

/// The mathematical form of what an evaluation returns.
pub open spec fn result_view(result: Result<Object, EvalError>) -> Result<ValueView, ErrorView> {
    match result {
        Ok(value) => Ok(value@),
        Err(error) => Err(error@),
    }
}

} // verus!
