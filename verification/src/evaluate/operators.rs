//! The operators on values.

use crate::evaluate::error::{result_view, ErrorView, EvalError};
use crate::evaluate::object::{Object, ValueView};
use crate::evaluate::semantics;
use crate::lexer::token::Token;
use vstd::prelude::*;
use vstd::string::StringExecFns;

verus! {

/// An integer that an operation gave, or the overflow it ran into.
fn integer_object(value: Option<isize>) -> (result: Result<Object, EvalError>)
    ensures
        result_view(result) == match value {
            Some(v) => Ok::<ValueView, ErrorView>(ValueView::Int(v as int)),
            None => Err(ErrorView::IntegerOverflow),
        },
{
    match value {
        Some(v) => Ok(Object::Int(v)),
        None => Err(EvalError::IntegerOverflow),
    }
}

/// The sum of two integers, or the overflow.
fn integer_sum(a: isize, b: isize) -> (result: Result<Object, EvalError>)
    ensures
        result_view(result) == semantics::integer_result(a + b),
{
    integer_object(a.checked_add(b))
}

/// The difference of two integers, or the overflow.
fn integer_difference(a: isize, b: isize) -> (result: Result<Object, EvalError>)
    ensures
        result_view(result) == semantics::integer_result(a - b),
{
    integer_object(a.checked_sub(b))
}

/// The product of two integers, or the overflow.
fn integer_product(a: isize, b: isize) -> (result: Result<Object, EvalError>)
    ensures
        result_view(result) == semantics::integer_result(a * b),
{
    integer_object(a.checked_mul(b))
}

/// The quotient of two integers, rounded towards zero, or the overflow.
fn integer_quotient(a: isize, b: isize) -> (result: Result<Object, EvalError>)
    requires
        b != 0,
    ensures
        result_view(result) == semantics::integer_result(
            semantics::truncated_quotient(a as int, b as int),
        ),
{
    integer_object(a.checked_div(b))
}

/// The remainder of the division that rounds towards zero, or the overflow
/// of that division.
fn integer_remainder(a: isize, b: isize) -> (result: Result<Object, EvalError>)
    requires
        b != 0,
    ensures
        result_view(result) == if a == isize::MIN && b == -1 {
            Err::<ValueView, ErrorView>(ErrorView::IntegerOverflow)
        } else {
            semantics::integer_result(semantics::truncated_remainder(a as int, b as int))
        },
{
    integer_object(a.checked_rem(b))
}

/// Applies a unary operator: `-` negates an integer, `!` inverts a boolean.
/// Every other operator and operand is an illegal operation.
pub fn apply_prefix(operator: &Token, operand: Object) -> (result: Result<Object, EvalError>)
    ensures
        result_view(result) == semantics::apply_prefix(operator@, operand@),
{
    let value = operand.unwrap_return();
    match operator {
        Token::Minus => match value {
            Object::Int(n) => integer_difference(0, n),
            other => Err(EvalError::IllegalOperation(operator.clone(), other)),
        },
        Token::Bang => match value {
            Object::Bool(b) => Ok(Object::Bool(!b)),
            other => Err(EvalError::IllegalOperation(operator.clone(), other)),
        },
        _ => Err(EvalError::IllegalOperation(operator.clone(), value)),
    }
}

/// Applies a binary operator to two integers, with checked arithmetic.
pub fn apply_integer_infix(operator: &Token, a: isize, b: isize) -> (result: Result<Object, EvalError>)
    ensures
        result_view(result) == semantics::apply_integer_infix(operator@, a as int, b as int),
{
    match operator {
        Token::Plus => integer_sum(a, b),
        Token::Minus => integer_difference(a, b),
        Token::Asterisk => integer_product(a, b),
        Token::Slash => if b == 0 {
            Err(EvalError::DivisionByZero)
        } else {
            integer_quotient(a, b)
        },
        Token::Modular => if b == 0 {
            Err(EvalError::DivisionByZero)
        } else {
            integer_remainder(a, b)
        },
        Token::Equal => Ok(Object::Bool(a == b)),
        Token::NotEqual => Ok(Object::Bool(a != b)),
        Token::Lt => Ok(Object::Bool(a < b)),
        Token::Gt => Ok(Object::Bool(a > b)),
        Token::Lte => Ok(Object::Bool(a <= b)),
        Token::Gte => Ok(Object::Bool(a >= b)),
        _ => Err(EvalError::IllegalOperation(operator.clone(), Object::Int(a))),
    }
}

/// Applies a binary operator to two strings: `+` joins them, `==` and `!=` compare them.
pub fn apply_string_infix(operator: &Token, a: String, b: String) -> (result: Result<Object, EvalError>)
    ensures
        result_view(result) == semantics::apply_string_infix(operator@, a@, b@),
{
    match operator {
        Token::Plus => Ok(Object::String(a.concat(b.as_str()))),
        Token::Equal => Ok(Object::Bool(a == b)),
        Token::NotEqual => Ok(Object::Bool(a != b)),
        _ => Err(EvalError::IllegalOperation(operator.clone(), Object::String(a))),
    }
}

/// Applies a binary operator to two booleans.
pub fn apply_boolean_infix(operator: &Token, a: bool, b: bool) -> (result: Result<Object, EvalError>)
    ensures
        result_view(result) == semantics::apply_boolean_infix(operator@, a, b),
{
    match operator {
        Token::Equal => Ok(Object::Bool(a == b)),
        Token::NotEqual => Ok(Object::Bool(a != b)),
        Token::Or => Ok(Object::Bool(a || b)),
        Token::And => Ok(Object::Bool(a && b)),
        _ => Err(EvalError::IllegalOperation(operator.clone(), Object::Bool(a))),
    }
}

/// Applies a binary operator to two values. Operands of two different kinds
/// are refused whatever the operator is; then the operator decides which kind
/// it accepts.
pub fn apply_infix(operator: &Token, left: Object, right: Object) -> (result: Result<Object, EvalError>)
    ensures
        result_view(result) == semantics::apply_infix(operator@, left@, right@),
{
    let l = left.unwrap_return();
    let r = right.unwrap_return();
    if !Object::variant_is_equal(&l, &r) {
        return Err(EvalError::MixedTypeOperation(operator.clone(), l, r));
    }
    match (l, r) {
        (Object::Int(a), Object::Int(b)) => apply_integer_infix(operator, a, b),
        (Object::String(a), Object::String(b)) => apply_string_infix(operator, a, b),
        (Object::Bool(a), Object::Bool(b)) => apply_boolean_infix(operator, a, b),
        (other, _) => Err(EvalError::IllegalOperation(operator.clone(), other)),
    }
}

} // verus!
