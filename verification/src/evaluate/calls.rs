//! The evaluation of calls: closures in a frame of their own, built-ins on
//! the values of their arguments.

use crate::ast::expression::{expressions_view, names_view, CallExpression, Identifier};
use crate::ast::statement::BlockStatement;
use crate::evaluate::build_in::{objects_view, BuildIn, BuildInFunction};
use crate::evaluate::semantics::{
    call_frame, eval_arguments, eval_block, eval_call, failed, native_call, returned, Outcome,
    Scope,
};
use crate::evaluate::console::{Console, ConsoleView};
use crate::evaluate::environment::Environment;
use crate::evaluate::error::{ErrorView, EvalError};
use crate::evaluate::evaluate::{eval_all, matches_outcome, Evaluate};
use crate::evaluate::object::{Object, ValueView};
use vstd::prelude::*;
use vstd::string::StringExecFns;

verus! {

impl CallExpression {
    /// Evaluates the arguments left to right in the caller's scope.
    fn eval_arguments(
        &self,
        environment: &mut Environment,
        console: &mut Console,
        fuel: usize,
    ) -> (result: Result<Vec<Object>, EvalError>)
        ensures
            ({
                let outcome = eval_arguments(
                    expressions_view(&self.arguments),
                    0,
                    Seq::empty(),
                    old(environment)@,
                    old(console)@,
                    fuel as nat,
                );
                &&& final(environment)@ == outcome.env
                &&& final(console)@ == outcome.console
                &&& match result {
                    Ok(values) => {
                        &&& values.len() == self.arguments.len()
                        &&& outcome.result == Ok::<Seq<ValueView>, ErrorView>(objects_view(values@))
                    },
                    Err(error) => outcome.result == Err::<Seq<ValueView>, ErrorView>(error@),
                }
            }),
        decreases fuel, self, 0nat,
    {
        let mut values: Vec<Object> = Vec::new();
        let mut index: usize = 0;
        assert(objects_view(values@) =~= Seq::empty());
        while index < self.arguments.len()
            invariant
                index <= self.arguments.len(),
                values.len() == index,
                eval_arguments(
                    expressions_view(&self.arguments),
                    index as int,
                    objects_view(values@),
                    environment@,
                    console@,
                    fuel as nat,
                ) == eval_arguments(
                    expressions_view(&self.arguments),
                    0,
                    Seq::empty(),
                    old(environment)@,
                    old(console)@,
                    fuel as nat,
                ),
            decreases self.arguments.len() - index,
        {
            match self.arguments[index].eval(environment, console, fuel) {
                Ok(value) => {
                    assert(objects_view(values@.push(value)) =~= objects_view(values@).push(
                        value@,
                    ));
                    values.push(value);
                },
                Err(error) => {
                    return Err(error);
                },
            }
            index = index + 1;
        }
        Ok(values)
    }
}

impl CallExpression {
    /// Runs a closure on the arguments of this call, which must be as many
    /// as its parameters: builds the frame, evaluates the arguments in the
    /// caller's scope, binds them, and evaluates the body for one unit of fuel.
    fn call_function(
        &self,
        parameters: &Vec<Identifier>,
        body: &BlockStatement,
        captured: &Environment,
        environment: &mut Environment,
        console: &mut Console,
        fuel: usize,
    ) -> (result: Result<Object, EvalError>)
        requires
            self.arguments.len() == parameters.len(),
        ensures
            ({
                let args = eval_arguments(
                    expressions_view(&self.arguments),
                    0,
                    Seq::empty(),
                    old(environment)@,
                    old(console)@,
                    fuel as nat,
                );
                matches_outcome(
                    result,
                    *final(environment),
                    *final(console),
                    match args.result {
                        Ok(values) => if fuel == 0 {
                            failed(ErrorView::OutOfFuel, args.env, args.console)
                        } else {
                            returned(
                                eval_block(
                                    body@,
                                    call_frame(
                                        old(environment)@,
                                        captured@,
                                        names_view(parameters@),
                                        values,
                                    ),
                                    args.console,
                                    (fuel - 1) as nat,
                                ),
                                args.env,
                            )
                        },
                        Err(error) => failed(error, args.env, args.console),
                    },
                )
            }),
        decreases fuel, self, 1nat,
    {
        let mut frame = environment.clone();
        frame.overlay(captured);
        let values = match self.eval_arguments(environment, console, fuel) {
            Ok(values) => values,
            Err(error) => {
                return Err(error);
            },
        };
        frame.bind(parameters, values);
        if fuel == 0 {
            return Err(EvalError::OutOfFuel);
        }
        eval_all(&body.statements, &mut frame, console, true, fuel - 1)
    }

    /// Applies a built-in to the values of the arguments of this call.
    fn call_build_in(
        &self,
        native: BuildIn,
        environment: &mut Environment,
        console: &mut Console,
        fuel: usize,
    ) -> (result: Result<Object, EvalError>)
        ensures
            ({
                let args = eval_arguments(
                    expressions_view(&self.arguments),
                    0,
                    Seq::empty(),
                    old(environment)@,
                    old(console)@,
                    fuel as nat,
                );
                matches_outcome(
                    result,
                    *final(environment),
                    *final(console),
                    match args.result {
                        Ok(values) => native_call(native, values, args.env, args.console),
                        Err(error) => failed(error, args.env, args.console),
                    },
                )
            }),
        decreases fuel, self, 1nat,
    {
        let values = match self.eval_arguments(environment, console, fuel) {
            Ok(values) => values,
            Err(error) => {
                return Err(error);
            },
        };
        native.eval(values, console)
    }
}

impl Evaluate for CallExpression {
    open spec fn evaluated(&self, env: Scope, console: ConsoleView, fuel: nat) -> Outcome {
        eval_call(self@, env, console, fuel)
    }

    /// Evaluates the callee and calls it. A closure runs its body in a scope
    /// of its own: a duplicate of the caller's scope, under the scope that
    /// the closure captured, under the parameters; a return signal from the
    /// body is taken off. A built-in gets the values of the arguments.
    fn eval(&self, environment: &mut Environment, console: &mut Console, fuel: usize) -> (result:
        Result<Object, EvalError>)
        decreases fuel, self, 2nat,
    {
        let callee = match self.function.eval(environment, console, fuel) {
            Ok(value) => value,
            Err(error) => {
                return Err(error);
            },
        };
        match &callee {
            Object::Function { parameters, body, env } => {
                if self.arguments.len() != parameters.len() {
                    return Err(EvalError::DifferentAmountOfArguments);
                }
                self.call_function(parameters, body, env, environment, console, fuel)
            },
            Object::BuildIn(native) => self.call_build_in(*native, environment, console, fuel),
            _ => Err(EvalError::CannotCallNonFunction),
        }
    }
}

} // verus!
