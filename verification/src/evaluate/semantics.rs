//! What expressions, statements and programs evaluate to: the model that
//! the evaluator is proved against.

use crate::ast::expression::ExprView;
use crate::ast::statement::StmtView;
use crate::evaluate::build_in::{BuildIn, CastIntFunction, InputFunction, LenFunction, PrintFunction};
use crate::evaluate::console::{trimmed, ConsoleView};
use crate::evaluate::error::ErrorView;
use crate::evaluate::integer::parsed_integer;
use crate::evaluate::object::{ObjectKind, ValueView};
use crate::lexer::token::{TokenKind, TokenView};
use vstd::prelude::*;
use vstd::utf8::encode_utf8;

verus! {

/// A scope as a mapping from names to values.
pub type Scope = Map<Seq<char>, ValueView>;

/// What an evaluation leaves behind: its result, the scope it ran in as it is
/// afterwards, and the console as it is afterwards.
pub struct Outcome {
    pub result: Result<ValueView, ErrorView>,
    pub env: Scope,
    pub console: ConsoleView,
}

/// What the evaluation of an argument list leaves behind.
pub struct ArgumentsOutcome {
    pub result: Result<Seq<ValueView>, ErrorView>,
    pub env: Scope,
    pub console: ConsoleView,
}

/// What a built-in leaves behind: it sees no scope.
pub struct NativeOutcome {
    pub result: Result<ValueView, ErrorView>,
    pub console: ConsoleView,
}

/// An evaluation that ended with `value`.
pub open spec fn done(value: ValueView, env: Scope, console: ConsoleView) -> Outcome {
    Outcome { result: Ok(value), env, console }
}

/// An evaluation that ended with `error`.
pub open spec fn failed(error: ErrorView, env: Scope, console: ConsoleView) -> Outcome {
    Outcome { result: Err(error), env, console }
}

/// `result` with every return signal taken off a value.
pub open spec fn unwrapped_result(result: Result<ValueView, ErrorView>) -> Result<
    ValueView,
    ErrorView,
> {
    match result {
        Ok(value) => Ok(value.unwrapped()),
        Err(error) => Err(error),
    }
}

/// `value` as an integer result: an overflow error if it does not fit the
/// machine integer.
pub open spec fn integer_result(value: int) -> Result<ValueView, ErrorView> {
    if isize::MIN <= value <= isize::MAX {
        Ok(ValueView::Int(value))
    } else {
        Err(ErrorView::IntegerOverflow)
    }
}

/// The quotient of `a` by `b` rounded towards zero.
pub open spec fn truncated_quotient(a: int, b: int) -> int
    recommends
        b != 0,
{
    if a >= 0 && b > 0 {
        a / b
    } else if a < 0 && b < 0 {
        (-a) / (-b)
    } else if a < 0 {
        -((-a) / b)
    } else {
        -(a / (-b))
    }
}

/// What is left of `a` after the division by `b` that rounds towards zero:
/// it has the sign of `a`.
pub open spec fn truncated_remainder(a: int, b: int) -> int
    recommends
        b != 0,
{
    if a >= 0 && b > 0 {
        a % b
    } else if a < 0 && b < 0 {
        -((-a) % (-b))
    } else if a < 0 {
        -((-a) % b)
    } else {
        a % (-b)
    }
}

/// The result of a unary operator on a value. A return signal around the
/// operand is taken off first.
pub open spec fn apply_prefix(operator: TokenView, operand: ValueView) -> Result<
    ValueView,
    ErrorView,
> {
    let value = operand.unwrapped();
    match operator.kind {
        TokenKind::Minus => match value {
            ValueView::Int(n) => integer_result(-n),
            _ => Err(ErrorView::IllegalOperation(operator, value)),
        },
        TokenKind::Bang => match value {
            ValueView::Bool(b) => Ok(ValueView::Bool(!b)),
            _ => Err(ErrorView::IllegalOperation(operator, value)),
        },
        _ => Err(ErrorView::IllegalOperation(operator, value)),
    }
}

/// The result of a binary operator on two integers.
pub open spec fn apply_integer_infix(operator: TokenView, a: int, b: int) -> Result<
    ValueView,
    ErrorView,
> {
    match operator.kind {
        TokenKind::Plus => integer_result(a + b),
        TokenKind::Minus => integer_result(a - b),
        TokenKind::Asterisk => integer_result(a * b),
        TokenKind::Slash => if b == 0 {
            Err(ErrorView::DivisionByZero)
        } else {
            integer_result(truncated_quotient(a, b))
        },
        TokenKind::Modular => if b == 0 {
            Err(ErrorView::DivisionByZero)
        } else if a == isize::MIN && b == -1 {
            Err(ErrorView::IntegerOverflow)
        } else {
            integer_result(truncated_remainder(a, b))
        },
        TokenKind::Equal => Ok(ValueView::Bool(a == b)),
        TokenKind::NotEqual => Ok(ValueView::Bool(a != b)),
        TokenKind::Lt => Ok(ValueView::Bool(a < b)),
        TokenKind::Gt => Ok(ValueView::Bool(a > b)),
        TokenKind::Lte => Ok(ValueView::Bool(a <= b)),
        TokenKind::Gte => Ok(ValueView::Bool(a >= b)),
        _ => Err(ErrorView::IllegalOperation(operator, ValueView::Int(a))),
    }
}

/// The result of a binary operator on two strings.
pub open spec fn apply_string_infix(operator: TokenView, a: Seq<char>, b: Seq<char>) -> Result<
    ValueView,
    ErrorView,
> {
    match operator.kind {
        TokenKind::Plus => Ok(ValueView::String(a + b)),
        TokenKind::Equal => Ok(ValueView::Bool(a == b)),
        TokenKind::NotEqual => Ok(ValueView::Bool(a != b)),
        _ => Err(ErrorView::IllegalOperation(operator, ValueView::String(a))),
    }
}

/// The result of a binary operator on two booleans.
pub open spec fn apply_boolean_infix(operator: TokenView, a: bool, b: bool) -> Result<
    ValueView,
    ErrorView,
> {
    match operator.kind {
        TokenKind::Equal => Ok(ValueView::Bool(a == b)),
        TokenKind::NotEqual => Ok(ValueView::Bool(a != b)),
        TokenKind::Or => Ok(ValueView::Bool(a || b)),
        TokenKind::And => Ok(ValueView::Bool(a && b)),
        _ => Err(ErrorView::IllegalOperation(operator, ValueView::Bool(a))),
    }
}

/// The result of a binary operator on two values. Return signals around the
/// operands are taken off first; operands of two different kinds are refused
/// before the operator is looked at.
pub open spec fn apply_infix(operator: TokenView, left: ValueView, right: ValueView) -> Result<
    ValueView,
    ErrorView,
> {
    let l = left.unwrapped();
    let r = right.unwrapped();
    if l.kind() != r.kind() {
        Err(ErrorView::MixedTypeOperation(operator, l, r))
    } else {
        match (l, r) {
            (ValueView::Int(a), ValueView::Int(b)) => apply_integer_infix(operator, a, b),
            (ValueView::String(a), ValueView::String(b)) => apply_string_infix(operator, a, b),
            (ValueView::Bool(a), ValueView::Bool(b)) => apply_boolean_infix(operator, a, b),
            _ => Err(ErrorView::IllegalOperation(operator, l)),
        }
    }
}

/// The built-in that a name stands for, if it is the name of one.
pub open spec fn build_in_named(name: Seq<char>) -> Option<BuildIn> {
    if name == "len"@ {
        Some(BuildIn::Len(LenFunction))
    } else if name == "input"@ {
        Some(BuildIn::Input(InputFunction))
    } else if name == "int"@ {
        Some(BuildIn::CastInt(CastIntFunction))
    } else if name == "print"@ {
        Some(BuildIn::Print(PrintFunction))
    } else {
        None
    }
}

/// The value of a name: built-ins come first, then the variables of the scope.
pub open spec fn lookup(name: Seq<char>, env: Scope) -> Result<ValueView, ErrorView> {
    match build_in_named(name) {
        Some(native) => Ok(ValueView::BuildIn(native)),
        None => if env.contains_key(name) {
            Ok(env[name])
        } else {
            Err(ErrorView::UnknownIdentifier(name))
        },
    }
}

/// The value of an integer literal.
pub open spec fn literal_value(digits: Seq<char>) -> Result<ValueView, ErrorView> {
    match parsed_integer(digits) {
        Some(value) => Ok(ValueView::Int(value)),
        None => Err(ErrorView::InvalidInteger(digits)),
    }
}

/// The identifier token under which a built-in reports an operand it refuses.
pub open spec fn native_name(name: Seq<char>) -> TokenView {
    TokenView { kind: TokenKind::Ident, text: name }
}

/// The first `count` values of `list` as they are shown, one after the other.
pub open spec fn shown_together(list: Seq<ValueView>, count: nat) -> Seq<char>
    decreases count,
{
    if count == 0 || count > list.len() {
        Seq::empty()
    } else {
        shown_together(list, (count - 1) as nat) + list[count - 1].shown()
    }
}

/// What `len` does: the number of bytes of its one argument, a string, in UTF-8.
pub open spec fn apply_len(args: Seq<ValueView>, console: ConsoleView) -> NativeOutcome {
    let result = if args.len() != 1 {
        Err(ErrorView::DifferentAmountOfArguments)
    } else {
        match args[0] {
            ValueView::String(text) => integer_result(encode_utf8(text).len() as int),
            other => Err(ErrorView::IllegalOperation(native_name("len"@), other)),
        }
    };
    NativeOutcome { result, console }
}

/// What `int` does: the integer that its one argument, a string, denotes, or
/// an error value that says it denotes none.
pub open spec fn apply_cast_int(args: Seq<ValueView>, console: ConsoleView) -> NativeOutcome {
    let result = if args.len() != 1 {
        Err(ErrorView::DifferentAmountOfArguments)
    } else {
        match args[0] {
            ValueView::String(text) => match parsed_integer(text) {
                Some(value) => Ok(ValueView::Int(value)),
                None => Ok(
                    ValueView::Error(
                        Box::new(ValueView::String("Cannot cast "@ + text + " to int!"@)),
                    ),
                ),
            },
            other => Err(ErrorView::IllegalOperation(native_name("int"@), other)),
        }
    };
    NativeOutcome { result, console }
}

/// What `print` does: it writes its arguments, as they are shown, as one line
/// and returns that line without the line break.
pub open spec fn apply_print(args: Seq<ValueView>, console: ConsoleView) -> NativeOutcome {
    let line = shown_together(args, args.len());
    NativeOutcome {
        result: Ok(ValueView::String(line)),
        console: console.write(line).write("\n"@),
    }
}

/// What `input` does: it writes its argument, a string, if it has one, reads
/// a line and returns it without the white space at its ends. Where no line
/// is left to read it fails, after the prompt was written.
pub open spec fn apply_input(args: Seq<ValueView>, console: ConsoleView) -> NativeOutcome {
    if args.len() > 1 {
        NativeOutcome { result: Err(ErrorView::DifferentAmountOfArguments), console }
    } else {
        let prompt = if args.len() == 0 {
            ValueView::String(Seq::empty())
        } else {
            args[0]
        };
        match prompt {
            ValueView::String(text) => {
                let prompted = console.write(text);
                if prompted.pending.len() == 0 {
                    NativeOutcome { result: Err(ErrorView::NoInput), console: prompted }
                } else {
                    NativeOutcome {
                        result: Ok(ValueView::String(trimmed(prompted.pending[0]))),
                        console: prompted.after_read(),
                    }
                }
            },
            other => NativeOutcome {
                result: Err(ErrorView::IllegalOperation(native_name("input"@), other)),
                console,
            },
        }
    }
}

/// What a built-in does with its arguments and the console.
pub open spec fn apply_build_in(native: BuildIn, args: Seq<ValueView>, console: ConsoleView) -> NativeOutcome {
    match native {
        BuildIn::Len(_) => apply_len(args, console),
        BuildIn::Input(_) => apply_input(args, console),
        BuildIn::CastInt(_) => apply_cast_int(args, console),
        BuildIn::Print(_) => apply_print(args, console),
    }
}

/// `frame` with the first `count` parameters bound to the first `count`
/// values, in order: a later parameter of the same name wins.
pub open spec fn bind_parameters(
    frame: Scope,
    parameters: Seq<Seq<char>>,
    values: Seq<ValueView>,
    count: nat,
) -> Scope
    decreases count,
{
    if count == 0 || count > parameters.len() || count > values.len() {
        frame
    } else {
        bind_parameters(frame, parameters, values, (count - 1) as nat).insert(
            parameters[count - 1],
            values[count - 1],
        )
    }
}

/// The scope in which the body of a closure runs: the caller's scope, under
/// the scope that the closure captured, under the parameters.
pub open spec fn call_frame(
    caller: Scope,
    captured: Scope,
    parameters: Seq<Seq<char>>,
    values: Seq<ValueView>,
) -> Scope {
    bind_parameters(caller.union_prefer_right(captured), parameters, values, parameters.len())
}

/// The evaluation of an expression in a scope, with a console, and with a
/// budget `fuel` that each call of a closure and each round of a loop takes
/// one unit from.
pub open spec fn eval_expression(e: ExprView, env: Scope, console: ConsoleView, fuel: nat) -> Outcome
    decreases fuel, e, 1nat,
{
    match e {
        ExprView::Identifier { name } => Outcome { result: lookup(name, env), env, console },
        ExprView::Integer { digits } => Outcome { result: literal_value(digits), env, console },
        ExprView::String { text } => done(ValueView::String(text), env, console),
        ExprView::Boolean { val } => done(ValueView::Bool(val), env, console),
        ExprView::Prefix { .. } => eval_prefix(e, env, console, fuel),
        ExprView::Infix { .. } => eval_infix(e, env, console, fuel),
        ExprView::If { .. } => eval_if(e, env, console, fuel),
        ExprView::Function { parameters, body } => done(
            ValueView::Function { parameters, body, env },
            env,
            console,
        ),
        ExprView::Call { .. } => eval_call(e, env, console, fuel),
        ExprView::Error { .. } => eval_error(e, env, console, fuel),
        ExprView::Assign { .. } => eval_assign(e, env, console, fuel),
        ExprView::While { .. } => eval_while(e, ValueView::Null, env, console, fuel),
    }
}

/// The evaluation of a unary operation `e`: the operand, then the operator.
pub open spec fn eval_prefix(e: ExprView, env: Scope, console: ConsoleView, fuel: nat) -> Outcome
    decreases fuel, e, 0nat,
{
    match e {
        ExprView::Prefix { operator, right } => {
            let operand = eval_expression(*right, env, console, fuel);
            match operand.result {
                Ok(value) => Outcome { result: apply_prefix(operator, value), ..operand },
                Err(_) => operand,
            }
        },
        _ => done(ValueView::Null, env, console),
    }
}

/// The evaluation of a binary operation `e`: the left operand, then the
/// right one, then the operator.
pub open spec fn eval_infix(e: ExprView, env: Scope, console: ConsoleView, fuel: nat) -> Outcome
    decreases fuel, e, 0nat,
{
    match e {
        ExprView::Infix { left, operator, right } => {
            let first = eval_expression(*left, env, console, fuel);
            match first.result {
                Ok(l) => {
                    let second = eval_expression(*right, first.env, first.console, fuel);
                    match second.result {
                        Ok(r) => Outcome { result: apply_infix(operator, l, r), ..second },
                        Err(_) => second,
                    }
                },
                Err(_) => first,
            }
        },
        _ => done(ValueView::Null, env, console),
    }
}

/// The evaluation of a conditional `e`: the condition, which must give a
/// boolean, then the block that it selects; `Null` where it selects none.
pub open spec fn eval_if(e: ExprView, env: Scope, console: ConsoleView, fuel: nat) -> Outcome
    decreases fuel, e, 0nat,
{
    match e {
        ExprView::If { condition, consequence, alternative } => {
            let test = eval_expression(*condition, env, console, fuel);
            match test.result {
                Ok(ValueView::Bool(true)) => eval_block(consequence, test.env, test.console, fuel),
                Ok(ValueView::Bool(false)) => match alternative {
                    Some(block) => eval_block(block, test.env, test.console, fuel),
                    None => done(ValueView::Null, test.env, test.console),
                },
                Ok(_) => failed(
                    ErrorView::UnexpectedObject("Boolean"@),
                    test.env,
                    test.console,
                ),
                Err(_) => test,
            }
        },
        _ => done(ValueView::Null, env, console),
    }
}

/// The outcome of a call of a closure whose body left `ran`: every return
/// signal is taken off the result, and the scope is that of the caller.
pub open spec fn returned(ran: Outcome, caller: Scope) -> Outcome {
    Outcome { result: unwrapped_result(ran.result), env: caller, console: ran.console }
}

/// The outcome of a call of a built-in with the values of its arguments.
pub open spec fn native_call(
    native: BuildIn,
    values: Seq<ValueView>,
    caller: Scope,
    console: ConsoleView,
) -> Outcome {
    let ran = apply_build_in(native, values, console);
    Outcome { result: ran.result, env: caller, console: ran.console }
}

/// The evaluation of a call `e`: the callee; for a closure the check that
/// the call gives as many arguments as it takes; the arguments, left to
/// right, in the caller's scope; then, for a closure, its body in the frame
/// of the call, for one unit of fuel, or else the built-in.
pub open spec fn eval_call(e: ExprView, env: Scope, console: ConsoleView, fuel: nat) -> Outcome
    decreases fuel, e, 0nat,
{
    match e {
        ExprView::Call { function, arguments } => {
            let callee = eval_expression(*function, env, console, fuel);
            match callee.result {
                Ok(ValueView::Function { parameters, body, env: captured }) => {
                    if arguments.len() != parameters.len() {
                        failed(ErrorView::DifferentAmountOfArguments, callee.env, callee.console)
                    } else {
                        let args = eval_arguments(
                            arguments,
                            0,
                            Seq::empty(),
                            callee.env,
                            callee.console,
                            fuel,
                        );
                        match args.result {
                            Ok(values) => if fuel == 0 {
                                failed(ErrorView::OutOfFuel, args.env, args.console)
                            } else {
                                returned(
                                    eval_block(
                                        body,
                                        call_frame(callee.env, captured, parameters, values),
                                        args.console,
                                        (fuel - 1) as nat,
                                    ),
                                    args.env,
                                )
                            },
                            Err(error) => failed(error, args.env, args.console),
                        }
                    }
                },
                Ok(ValueView::BuildIn(native)) => {
                    let args = eval_arguments(
                        arguments,
                        0,
                        Seq::empty(),
                        callee.env,
                        callee.console,
                        fuel,
                    );
                    match args.result {
                        Ok(values) => native_call(native, values, args.env, args.console),
                        Err(error) => failed(error, args.env, args.console),
                    }
                },
                Ok(_) => failed(ErrorView::CannotCallNonFunction, callee.env, callee.console),
                Err(_) => callee,
            }
        },
        _ => done(ValueView::Null, env, console),
    }
}

/// The evaluation of an error expression `e`: the content, wrapped as an
/// error value.
pub open spec fn eval_error(e: ExprView, env: Scope, console: ConsoleView, fuel: nat) -> Outcome
    decreases fuel, e, 0nat,
{
    match e {
        ExprView::Error { content } => {
            let inner = eval_expression(*content, env, console, fuel);
            match inner.result {
                Ok(value) => Outcome { result: Ok(ValueView::Error(Box::new(value))), ..inner },
                Err(_) => inner,
            }
        },
        _ => done(ValueView::Null, env, console),
    }
}

/// An evaluation that gave a value, followed by the binding of `name` to
/// that value in the scope at hand. The result is the value bound.
pub open spec fn bound(name: Seq<char>, evaluated: Outcome) -> Outcome {
    match evaluated.result {
        Ok(value) => Outcome { env: evaluated.env.insert(name, value), ..evaluated },
        Err(_) => evaluated,
    }
}

/// The evaluation of an assignment `e`.
pub open spec fn eval_assign(e: ExprView, env: Scope, console: ConsoleView, fuel: nat) -> Outcome
    decreases fuel, e, 0nat,
{
    match e {
        ExprView::Assign { name, value } => bound(
            name,
            eval_expression(*value, env, console, fuel),
        ),
        _ => done(ValueView::Null, env, console),
    }
}

/// The rounds of a loop that are still to run: `e` is the loop, `last` the
/// result of the round before, or `Null` before the first. The condition is
/// looked at before each round; a round takes one unit of fuel; a return
/// signal from the body ends the loop and is handed on.
pub open spec fn eval_while(
    e: ExprView,
    last: ValueView,
    env: Scope,
    console: ConsoleView,
    fuel: nat,
) -> Outcome
    decreases fuel, e, 0nat,
{
    match e {
        ExprView::While { condition, consequence } => {
            let test = eval_expression(*condition, env, console, fuel);
            match test.result {
                Ok(ValueView::Bool(true)) => {
                    if fuel == 0 {
                        failed(ErrorView::OutOfFuel, test.env, test.console)
                    } else {
                        let round = eval_block(
                            consequence,
                            test.env,
                            test.console,
                            (fuel - 1) as nat,
                        );
                        match round.result {
                            Ok(value) => if value is Return {
                                round
                            } else {
                                eval_while(e, value, round.env, round.console, (fuel - 1) as nat)
                            },
                            Err(_) => round,
                        }
                    }
                },
                Ok(ValueView::Bool(false)) => done(last, test.env, test.console),
                Ok(_) => failed(
                    ErrorView::UnexpectedObject("Boolean"@),
                    test.env,
                    test.console,
                ),
                Err(_) => test,
            }
        },
        _ => done(last, env, console),
    }
}

/// The evaluation of the arguments of a call from the `index`-th on, left to
/// right, in the caller's scope; `values` holds those of the arguments before.
pub open spec fn eval_arguments(
    arguments: Seq<ExprView>,
    index: int,
    values: Seq<ValueView>,
    env: Scope,
    console: ConsoleView,
    fuel: nat,
) -> ArgumentsOutcome
    decreases fuel, arguments, arguments.len() - index,
{
    if 0 <= index < arguments.len() {
        let next = eval_expression(arguments[index], env, console, fuel);
        match next.result {
            Ok(value) => eval_arguments(
                arguments,
                index + 1,
                values.push(value),
                next.env,
                next.console,
                fuel,
            ),
            Err(error) => ArgumentsOutcome {
                result: Err(error),
                env: next.env,
                console: next.console,
            },
        }
    } else {
        ArgumentsOutcome { result: Ok(values), env, console }
    }
}

/// The evaluation of one statement.
pub open spec fn eval_statement(s: StmtView, env: Scope, console: ConsoleView, fuel: nat) -> Outcome
    decreases fuel, s, 3nat,
{
    match s {
        StmtView::Let { name, value } => bound(name, eval_expression(value, env, console, fuel)),
        StmtView::Return { value } => {
            let inner = eval_expression(value, env, console, fuel);
            match inner.result {
                Ok(v) => Outcome { result: Ok(ValueView::Return(Box::new(v))), ..inner },
                Err(_) => inner,
            }
        },
        StmtView::Expression { expression } => eval_expression(
            expression,
            env,
            console,
            fuel,
        ),
        StmtView::Block { statements } => eval_block(statements, env, console, fuel),
    }
}

/// The evaluation of a list of statements from the `index`-th on; `last` is
/// the result of the statement before, or `Null` before the first. The first
/// return signal ends the list and is handed on as it is.
pub open spec fn eval_statements(
    statements: Seq<StmtView>,
    index: int,
    last: ValueView,
    env: Scope,
    console: ConsoleView,
    fuel: nat,
) -> Outcome
    decreases fuel, statements, statements.len() - index,
{
    if 0 <= index < statements.len() {
        let step = eval_statement(statements[index], env, console, fuel);
        match step.result {
            Ok(value) => if value is Return {
                step
            } else {
                eval_statements(statements, index + 1, value, step.env, step.console, fuel)
            },
            Err(_) => step,
        }
    } else {
        done(last, env, console)
    }
}

/// The evaluation of a list of statements: the result of the last statement
/// that ran, `Null` for the empty list.
pub open spec fn eval_block(
    statements: Seq<StmtView>,
    env: Scope,
    console: ConsoleView,
    fuel: nat,
) -> Outcome
    decreases fuel, statements, statements.len() + 1,
{
    eval_statements(statements, 0, ValueView::Null, env, console, fuel)
}

/// `outcome` with every return signal taken off its value, if `unwrap` says so.
pub open spec fn finished(outcome: Outcome, unwrap: bool) -> Outcome {
    if unwrap {
        Outcome { result: unwrapped_result(outcome.result), ..outcome }
    } else {
        outcome
    }
}

} // verus!
