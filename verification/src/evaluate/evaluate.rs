//! The entry points of the evaluator, and the trait of what can be evaluated.

use crate::ast::statement::{statements_view, Statement};
use crate::evaluate::console::{Console, ConsoleView};
use crate::evaluate::environment::Environment;
use crate::evaluate::error::{result_view, EvalError};
use crate::evaluate::object::Object;
use crate::evaluate::semantics::{
    eval_block, eval_statement, eval_statements, finished, Outcome, Scope,
};
use crate::parser::program::Program;
use vstd::prelude::*;

verus! {

/// Whether a result, and the scope and console that an evaluation left,
/// agree with what the evaluation is to give.
pub open spec fn matches_outcome(
    result: Result<Object, EvalError>,
    environment: Environment,
    console: Console,
    outcome: Outcome,
) -> bool {
    &&& result_view(result) == outcome.result
    &&& environment@ == outcome.env
    &&& console@ == outcome.console
}

/// What can be evaluated in a scope.
pub trait Evaluate {
    /// What the evaluation gives, in a given scope, with a given console
    /// and a given budget of calls and loop rounds.
    spec fn evaluated(&self, env: Scope, console: ConsoleView, fuel: nat) -> Outcome;

    fn eval(&self, environment: &mut Environment, console: &mut Console, fuel: usize) -> (result:
        Result<Object, EvalError>)
        ensures
            matches_outcome(
                result,
                *final(environment),
                *final(console),
                self.evaluated(old(environment)@, old(console)@, fuel as nat),
            ),
    ;
}

} // verus!

verus! {

/// Evaluates one statement. With `remove_ret` every return signal is taken
/// off the value it gives.
pub fn eval(
    statement: &Statement,
    environment: &mut Environment,
    console: &mut Console,
    remove_ret: bool,
    fuel: usize,
) -> (result: Result<Object, EvalError>)
    ensures
        matches_outcome(
            result,
            *final(environment),
            *final(console),
            finished(
                eval_statement(statement@, old(environment)@, old(console)@, fuel as nat),
                remove_ret,
            ),
        ),
{
    match statement.eval(environment, console, fuel) {
        Ok(value) => if remove_ret {
            Ok(value.unwrap_return())
        } else {
            Ok(value)
        },
        Err(error) => Err(error),
    }
}

/// Evaluates statements in order and gives the result of the last one that
/// ran: `Null` if there is none. The first return signal ends the list; it
/// is handed on as it is, or, with `remove_ret`, taken off the value.
pub fn eval_all(
    statements: &Vec<Statement>,
    environment: &mut Environment,
    console: &mut Console,
    remove_ret: bool,
    fuel: usize,
) -> (result: Result<Object, EvalError>)
    ensures
        matches_outcome(
            result,
            *final(environment),
            *final(console),
            finished(
                eval_block(
                    statements_view(statements),
                    old(environment)@,
                    old(console)@,
                    fuel as nat,
                ),
                remove_ret,
            ),
        ),
    decreases fuel, statements,
{
    let mut last = Object::Null;
    let mut index: usize = 0;
    while index < statements.len()
        invariant
            index <= statements.len(),
            !(last@ is Return),
            eval_statements(
                statements_view(statements),
                index as int,
                last@,
                environment@,
                console@,
                fuel as nat,
            ) == eval_block(statements_view(statements), old(environment)@, old(console)@, fuel as nat),
        decreases statements.len() - index,
    {
        match statements[index].eval(environment, console, fuel) {
            Ok(value) => {
                if let Object::Return(_) = &value {
                    return if remove_ret {
                        Ok(value.unwrap_return())
                    } else {
                        Ok(value)
                    };
                }
                last = value;
            },
            Err(error) => {
                return Err(error);
            },
        }
        index = index + 1;
    }
    Ok(last)
}

/// Evaluates a program in a scope: its statements in order, with the return
/// signal taken off the result.
pub fn eval_program(
    program: Program,
    environment: &mut Environment,
    console: &mut Console,
    fuel: usize,
) -> (result: Result<Object, EvalError>)
    ensures
        matches_outcome(
            result,
            *final(environment),
            *final(console),
            finished(
                eval_block(program@, old(environment)@, old(console)@, fuel as nat),
                true,
            ),
        ),
{
    eval_all(&program.statements, environment, console, true, fuel)
}

} // verus!
