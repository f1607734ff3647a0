//! Laws of the evaluation, proved from its model.

use crate::ast::expression::ExprView;
use crate::ast::statement::StmtView;
use crate::evaluate::console::ConsoleView;
use crate::evaluate::error::ErrorView;
use crate::evaluate::integer::parsed_integer;
use crate::evaluate::object::ValueView;
use crate::evaluate::semantics::{
    apply_infix, apply_integer_infix, apply_prefix, bind_parameters, build_in_named, call_frame,
    done, eval_block, eval_call, eval_expression, eval_infix, eval_prefix, eval_while, failed,
    finished, integer_result, truncated_quotient, truncated_remainder, unwrapped_result, Outcome,
    Scope,
};
use crate::lexer::token::{TokenKind, TokenView};
use vstd::prelude::*;

verus! {

/// Division that rounds towards zero is the division of the machine: the
/// quotient times the divisor, plus the remainder, is the dividend; the
/// remainder is smaller in size than the divisor and is zero or has the sign
/// of the dividend.
pub proof fn lemma_truncated_division(a: int, b: int)
    requires
        b != 0,
    ensures
        a == b * truncated_quotient(a, b) + truncated_remainder(a, b),
        a >= 0 ==> 0 <= truncated_remainder(a, b),
        a <= 0 ==> truncated_remainder(a, b) <= 0,
        b > 0 ==> -b < truncated_remainder(a, b) < b,
        b < 0 ==> b < truncated_remainder(a, b) < -b,
{
    let x = if a < 0 {
        -a
    } else {
        a
    };
    let d = if b < 0 {
        -b
    } else {
        b
    };
    vstd::arithmetic::div_mod::lemma_fundamental_div_mod(x, d);
    vstd::arithmetic::div_mod::lemma_mod_bound(x, d);
    assert(x == d * (x / d) + x % d);
    if a >= 0 && b > 0 {
    } else if a < 0 && b < 0 {
        assert(b * ((-a) / (-b)) == -(d * (x / d))) by (nonlinear_arith)
            requires
                d == -b,
                x == -a,
        ;
    } else if a < 0 {
        assert(b * (-((-a) / b)) == -(d * (x / d))) by (nonlinear_arith)
            requires
                d == b,
                x == -a,
        ;
    } else {
        assert(b * (-(a / (-b))) == d * (x / d)) by (nonlinear_arith)
            requires
                d == -b,
                x == a,
        ;
    }
}

/// On two integers the operators `+`, `-`, `*`, `/` and `%` compute what
/// the arithmetic of the integers gives, with `/` and `%` rounding towards
/// zero; a result that does not fit the machine integer is an overflow
/// fault, and a zero divisor is a division fault.
pub proof fn lemma_integer_arithmetic(operator: TokenView, a: int, b: int)
    requires
        isize::MIN <= a <= isize::MAX,
        isize::MIN <= b <= isize::MAX,
    ensures
        operator.kind == TokenKind::Plus ==> apply_infix(
            operator,
            ValueView::Int(a),
            ValueView::Int(b),
        ) == integer_result(a + b),
        operator.kind == TokenKind::Minus ==> apply_infix(
            operator,
            ValueView::Int(a),
            ValueView::Int(b),
        ) == integer_result(a - b),
        operator.kind == TokenKind::Asterisk ==> apply_infix(
            operator,
            ValueView::Int(a),
            ValueView::Int(b),
        ) == integer_result(a * b),
        operator.kind == TokenKind::Slash && b != 0 ==> apply_infix(
            operator,
            ValueView::Int(a),
            ValueView::Int(b),
        ) == integer_result(truncated_quotient(a, b)),
        operator.kind == TokenKind::Modular && b != 0 && !(a == isize::MIN && b == -1)
            ==> apply_infix(operator, ValueView::Int(a), ValueView::Int(b)) == Ok::<
            ValueView,
            ErrorView,
        >(ValueView::Int(truncated_remainder(a, b))),
        (operator.kind == TokenKind::Slash || operator.kind == TokenKind::Modular) && b == 0
            ==> apply_infix(operator, ValueView::Int(a), ValueView::Int(b)) == Err::<
            ValueView,
            ErrorView,
        >(ErrorView::DivisionByZero),
{
    if b != 0 {
        lemma_truncated_division(a, b);
    }
}

/// An operator between two integer literals evaluates to what the operator
/// gives on the two integers that the literals denote, in every scope and
/// with every budget, and leaves scope and console as they were.
pub proof fn lemma_literal_arithmetic(
    left: Seq<char>,
    operator: TokenView,
    right: Seq<char>,
    a: int,
    b: int,
    env: Scope,
    console: ConsoleView,
    fuel: nat,
)
    requires
        parsed_integer(left) == Some(a),
        parsed_integer(right) == Some(b),
    ensures
        eval_expression(
            ExprView::Infix {
                left: Box::new(ExprView::Integer { digits: left }),
                operator,
                right: Box::new(ExprView::Integer { digits: right }),
            },
            env,
            console,
            fuel,
        ) == (Outcome {
            result: apply_integer_infix(operator, a, b),
            env,
            console,
        }),
{
    let l = ExprView::Integer { digits: left };
    let r = ExprView::Integer { digits: right };
    let e = ExprView::Infix { left: Box::new(l), operator, right: Box::new(r) };
    assert(eval_expression(l, env, console, fuel) == done(ValueView::Int(a), env, console));
    assert(eval_expression(r, env, console, fuel) == done(ValueView::Int(b), env, console));
    assert(eval_expression(e, env, console, fuel) == eval_infix(e, env, console, fuel));
}

/// `!true` is `false` and `!false` is `true`.
pub proof fn lemma_not_literal(operator: TokenView, truth: bool, env: Scope, console: ConsoleView, fuel: nat)
    requires
        operator.kind == TokenKind::Bang,
    ensures
        eval_expression(
            ExprView::Prefix { operator, right: Box::new(ExprView::Boolean { val: truth }) },
            env,
            console,
            fuel,
        ) == done(ValueView::Bool(!truth), env, console),
{
    let inner = ExprView::Boolean { val: truth };
    let e = ExprView::Prefix { operator, right: Box::new(inner) };
    assert(eval_expression(inner, env, console, fuel) == done(ValueView::Bool(truth), env, console));
    assert(eval_expression(e, env, console, fuel) == eval_prefix(e, env, console, fuel));
}

/// `!!x` gives what `x` gives, whenever `x` gives a boolean: the same
/// value, the same scope and the same console.
pub proof fn lemma_double_negation(
    operator: TokenView,
    x: ExprView,
    env: Scope,
    console: ConsoleView,
    fuel: nat,
)
    requires
        operator.kind == TokenKind::Bang,
        eval_expression(x, env, console, fuel).result matches Ok(value) && value is Bool,
    ensures
        eval_expression(
            ExprView::Prefix {
                operator,
                right: Box::new(ExprView::Prefix { operator, right: Box::new(x) }),
            },
            env,
            console,
            fuel,
        ) == eval_expression(x, env, console, fuel),
{
    let once = ExprView::Prefix { operator, right: Box::new(x) };
    let twice = ExprView::Prefix { operator, right: Box::new(once) };
    assert(eval_expression(once, env, console, fuel) == eval_prefix(once, env, console, fuel));
    assert(eval_expression(twice, env, console, fuel) == eval_prefix(twice, env, console, fuel));
}

/// A binary operator on two values of different kinds fails with the
/// mixed-type error, whatever the operator is: no value is coerced.
pub proof fn lemma_mixed_operands(operator: TokenView, left: ValueView, right: ValueView)
    requires
        left.unwrapped().kind() != right.unwrapped().kind(),
    ensures
        apply_infix(operator, left, right) == Err::<ValueView, ErrorView>(
            ErrorView::MixedTypeOperation(operator, left.unwrapped(), right.unwrapped()),
        ),
{
}

/// A binary operation whose operands evaluate to values of different kinds
/// evaluates to the mixed-type error.
pub proof fn lemma_mixed_infix(
    left: ExprView,
    operator: TokenView,
    right: ExprView,
    env: Scope,
    console: ConsoleView,
    fuel: nat,
)
    requires
        eval_expression(left, env, console, fuel).result is Ok,
        ({
            let first = eval_expression(left, env, console, fuel);
            let second = eval_expression(right, first.env, first.console, fuel);
            second.result is Ok && first.result->Ok_0.unwrapped().kind()
                != second.result->Ok_0.unwrapped().kind()
        }),
    ensures
        eval_expression(
            ExprView::Infix { left: Box::new(left), operator, right: Box::new(right) },
            env,
            console,
            fuel,
        ).result is Err,
        eval_expression(
            ExprView::Infix { left: Box::new(left), operator, right: Box::new(right) },
            env,
            console,
            fuel,
        ).result->Err_0 is MixedTypeOperation,
{
    let e = ExprView::Infix { left: Box::new(left), operator, right: Box::new(right) };
    assert(eval_expression(e, env, console, fuel) == eval_infix(e, env, console, fuel));
}

/// A call that gives a closure another number of arguments than it has
/// parameters fails with the arity error, with every budget, and leaves
/// scope and console as the evaluation of the callee left them: no argument
/// and no part of the body is evaluated.
pub proof fn lemma_wrong_arity(
    function: ExprView,
    arguments: Seq<ExprView>,
    env: Scope,
    console: ConsoleView,
    fuel: nat,
)
    requires
        eval_expression(function, env, console, fuel).result matches Ok(callee) && callee is Function
            && callee->parameters.len() != arguments.len(),
    ensures
        eval_expression(
            ExprView::Call { function: Box::new(function), arguments },
            env,
            console,
            fuel,
        ) == failed(
            ErrorView::DifferentAmountOfArguments,
            eval_expression(function, env, console, fuel).env,
            eval_expression(function, env, console, fuel).console,
        ),
{
    let e = ExprView::Call { function: Box::new(function), arguments };
    assert(eval_expression(e, env, console, fuel) == eval_call(e, env, console, fuel));
}

/// A loop whose condition gives `false` at first runs its body not once: it
/// gives `Null` and leaves what the evaluation of the condition left.
pub proof fn lemma_while_false(
    condition: ExprView,
    consequence: Seq<StmtView>,
    env: Scope,
    console: ConsoleView,
    fuel: nat,
)
    requires
        eval_expression(condition, env, console, fuel).result == Ok::<ValueView, ErrorView>(
            ValueView::Bool(false),
        ),
    ensures
        eval_expression(
            ExprView::While { condition: Box::new(condition), consequence },
            env,
            console,
            fuel,
        ) == done(
            ValueView::Null,
            eval_expression(condition, env, console, fuel).env,
            eval_expression(condition, env, console, fuel).console,
        ),
{
    let e = ExprView::While { condition: Box::new(condition), consequence };
    assert(eval_expression(e, env, console, fuel) == eval_while(
        e,
        ValueView::Null,
        env,
        console,
        fuel,
    ));
}

/// After a round of a loop the condition is looked at again: where the
/// condition gives `true` and the body then gives a value that is no return
/// signal, the loop goes on as a loop that starts in the scope and with the
/// console that the body left, with one unit of fuel less.
pub proof fn lemma_while_round(
    condition: ExprView,
    consequence: Seq<StmtView>,
    last: ValueView,
    env: Scope,
    console: ConsoleView,
    fuel: nat,
)
    requires
        fuel > 0,
        eval_expression(condition, env, console, fuel).result == Ok::<ValueView, ErrorView>(
            ValueView::Bool(true),
        ),
        ({
            let test = eval_expression(condition, env, console, fuel);
            let round = eval_block(consequence, test.env, test.console, (fuel - 1) as nat);
            round.result matches Ok(value) && !(value is Return)
        }),
    ensures
        ({
            let e = ExprView::While { condition: Box::new(condition), consequence };
            let test = eval_expression(condition, env, console, fuel);
            let round = eval_block(consequence, test.env, test.console, (fuel - 1) as nat);
            eval_while(e, last, env, console, fuel) == eval_while(
                e,
                round.result->Ok_0,
                round.env,
                round.console,
                (fuel - 1) as nat,
            )
        }),
{
}

/// A name that is neither a built-in nor bound in the scope evaluates to
/// the unknown-identifier error, which carries the name.
pub proof fn lemma_unknown_identifier(name: Seq<char>, env: Scope, console: ConsoleView, fuel: nat)
    requires
        build_in_named(name) is None,
        !env.contains_key(name),
    ensures
        eval_expression(ExprView::Identifier { name }, env, console, fuel) == failed(
            ErrorView::UnknownIdentifier(name),
            env,
            console,
        ),
{
}

/// A value that was unwrapped is no return signal.
pub proof fn lemma_unwrapped_is_plain(value: ValueView)
    ensures
        !(value.unwrapped() is Return),
        value.unwrapped().unwrapped() == value.unwrapped(),
    decreases value,
{
    match value {
        ValueView::Return(inner) => {
            lemma_unwrapped_is_plain(*inner);
        },
        _ => {},
    }
}

/// Operators see their operands without return signals: a signal around an
/// operand changes nothing of what an operator gives.
pub proof fn lemma_operands_are_unwrapped(operator: TokenView, left: ValueView, right: ValueView)
    ensures
        apply_infix(operator, left, right) == apply_infix(
            operator,
            left.unwrapped(),
            right.unwrapped(),
        ),
        apply_prefix(operator, left) == apply_prefix(operator, left.unwrapped()),
{
    lemma_unwrapped_is_plain(left);
    lemma_unwrapped_is_plain(right);
}

/// The value that a call of a closure gives, and the one that a program
/// gives, is no return signal.
pub proof fn lemma_results_are_plain(outcome: Outcome)
    ensures
        finished(outcome, true).result matches Ok(value) ==> !(value is Return),
        unwrapped_result(outcome.result) matches Ok(value) ==> !(value is Return),
{
    if outcome.result is Ok {
        lemma_unwrapped_is_plain(outcome.result->Ok_0);
    }
}

/// Binding parameters leaves every other name as the frame had it, and
/// binds a name that is a parameter to the value of the last parameter of
/// that name.
pub proof fn lemma_bound_parameters(
    frame: Scope,
    parameters: Seq<Seq<char>>,
    values: Seq<ValueView>,
    count: nat,
    name: Seq<char>,
)
    requires
        count <= parameters.len(),
        count <= values.len(),
    ensures
        (forall|i: int| 0 <= i < count ==> parameters[i] != name) ==> {
            let bound = bind_parameters(frame, parameters, values, count);
            &&& bound.contains_key(name) == frame.contains_key(name)
            &&& frame.contains_key(name) ==> bound[name] == frame[name]
        },
        forall|last: int|
            0 <= last < count && parameters[last] == name && (forall|i: int|
                last < i < count ==> parameters[i] != name) ==> {
                let bound = bind_parameters(frame, parameters, values, count);
                bound.contains_key(name) && bound[name] == values[last]
            },
    decreases count,
{
    if count > 0 {
        lemma_bound_parameters(frame, parameters, values, (count - 1) as nat, name);
    }
}

/// The frame of a call has three layers: a name that is a parameter stands
/// for its argument; any other name that the closure captured stands for the
/// value captured; a name that is neither stands for what the caller has
/// under it, if anything.
pub proof fn lemma_call_frame_layers(
    caller: Scope,
    captured: Scope,
    parameters: Seq<Seq<char>>,
    values: Seq<ValueView>,
    name: Seq<char>,
)
    requires
        parameters.len() == values.len(),
    ensures
        forall|last: int|
            0 <= last < parameters.len() && parameters[last] == name && (forall|i: int|
                last < i < parameters.len() ==> parameters[i] != name) ==> {
                let frame = call_frame(caller, captured, parameters, values);
                frame.contains_key(name) && frame[name] == values[last]
            },
        (forall|i: int| 0 <= i < parameters.len() ==> parameters[i] != name) ==> {
            let frame = call_frame(caller, captured, parameters, values);
            if captured.contains_key(name) {
                frame.contains_key(name) && frame[name] == captured[name]
            } else if caller.contains_key(name) {
                frame.contains_key(name) && frame[name] == caller[name]
            } else {
                !frame.contains_key(name)
            }
        },
{
    lemma_bound_parameters(
        caller.union_prefer_right(captured),
        parameters,
        values,
        parameters.len(),
        name,
    );
}

/// A function literal evaluates to a closure that holds the whole scope as
/// it is at that moment; the scope itself and the console stay as they were.
pub proof fn lemma_closure_captures_scope(
    parameters: Seq<Seq<char>>,
    body: Seq<StmtView>,
    env: Scope,
    console: ConsoleView,
    fuel: nat,
)
    ensures
        eval_expression(ExprView::Function { parameters, body }, env, console, fuel) == done(
            ValueView::Function { parameters, body, env },
            env,
            console,
        ),
{
}

} // verus!
