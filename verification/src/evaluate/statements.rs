//! The evaluation of the statements.

use crate::ast::statement::{
    BlockStatement, ExpressionStatement, LetStatement, ReturnStatement, Statement,
};
use crate::evaluate::console::{Console, ConsoleView};
use crate::evaluate::environment::Environment;
use crate::evaluate::error::EvalError;
use crate::evaluate::evaluate::{eval_all, Evaluate};
use crate::evaluate::object::Object;
use crate::evaluate::semantics::{eval_block, eval_statement, Outcome, Scope};
use vstd::prelude::*;

verus! {

impl Evaluate for LetStatement {
    open spec fn evaluated(&self, env: Scope, console: ConsoleView, fuel: nat) -> Outcome {
        eval_statement(self@, env, console, fuel)
    }

    /// Evaluates the value, binds the name to it in the scope at hand, and
    /// gives the value bound.
    fn eval(&self, environment: &mut Environment, console: &mut Console, fuel: usize) -> (result:
        Result<Object, EvalError>)
        decreases fuel, self,
    {
        match self.value.eval(environment, console, fuel) {
            Ok(value) => {
                environment.set(self.name.value.clone(), value.clone());
                Ok(value)
            },
            Err(error) => Err(error),
        }
    }
}

impl Evaluate for ReturnStatement {
    open spec fn evaluated(&self, env: Scope, console: ConsoleView, fuel: nat) -> Outcome {
        eval_statement(self@, env, console, fuel)
    }

    /// Evaluates the value and wraps it in a return signal.
    fn eval(&self, environment: &mut Environment, console: &mut Console, fuel: usize) -> (result:
        Result<Object, EvalError>)
        decreases fuel, self,
    {
        match self.value.eval(environment, console, fuel) {
            Ok(value) => Ok(Object::Return(Box::new(value))),
            Err(error) => Err(error),
        }
    }
}

impl Evaluate for ExpressionStatement {
    open spec fn evaluated(&self, env: Scope, console: ConsoleView, fuel: nat) -> Outcome {
        eval_statement(self@, env, console, fuel)
    }

    fn eval(&self, environment: &mut Environment, console: &mut Console, fuel: usize) -> (result:
        Result<Object, EvalError>)
        decreases fuel, self,
    {
        self.expression.eval(environment, console, fuel)
    }
}

impl Evaluate for BlockStatement {
    open spec fn evaluated(&self, env: Scope, console: ConsoleView, fuel: nat) -> Outcome {
        eval_block(self@, env, console, fuel)
    }

    /// Evaluates the statements in order; a return signal ends the block
    /// and is handed on as it is.
    fn eval(&self, environment: &mut Environment, console: &mut Console, fuel: usize) -> (result:
        Result<Object, EvalError>)
        decreases fuel, self,
    {
        eval_all(&self.statements, environment, console, false, fuel)
    }
}

impl Evaluate for Statement {
    open spec fn evaluated(&self, env: Scope, console: ConsoleView, fuel: nat) -> Outcome {
        eval_statement(self@, env, console, fuel)
    }

    fn eval(&self, environment: &mut Environment, console: &mut Console, fuel: usize) -> (result:
        Result<Object, EvalError>)
        decreases fuel, self,
    {
        match self {
            Statement::Let(node) => node.eval(environment, console, fuel),
            Statement::Return(node) => node.eval(environment, console, fuel),
            Statement::Expression(node) => node.eval(environment, console, fuel),
            Statement::Block(node) => node.eval(environment, console, fuel),
        }
    }
}

} // verus!
