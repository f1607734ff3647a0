//! The evaluation of the expressions, but for calls and loops.

use crate::ast::expression::{
    clone_names, AssignExpression, Boolean, ErrorExpression, Expression, FunctionExpression,
    Identifier, IfExpression, InfixExpression, Integer, PrefixExpression, StringExpression,
};
use crate::evaluate::integer::parse_integer;
use crate::evaluate::operators::{apply_infix, apply_prefix};
use crate::evaluate::semantics::{
    eval_assign, eval_error, eval_expression, eval_if, eval_infix, eval_prefix, Outcome, Scope,
};
use crate::evaluate::console::{Console, ConsoleView};
use crate::evaluate::environment::Environment;
use crate::evaluate::error::{ErrorView, EvalError};
use crate::evaluate::evaluate::{eval_all, Evaluate};
use crate::evaluate::object::{Object, ValueView};
use vstd::prelude::*;
use vstd::string::StringExecFns;

verus! {

impl Evaluate for Identifier {
    open spec fn evaluated(&self, env: Scope, console: ConsoleView, fuel: nat) -> Outcome {
        eval_expression(self.expr_view(), env, console, fuel)
    }

    /// Looks the name up: built-ins first, then the variables of the scope.
    fn eval(&self, environment: &mut Environment, console: &mut Console, fuel: usize) -> (result:
        Result<Object, EvalError>) {
        match environment.get_build_in(&self.value) {
            Some(native) => Ok(native),
            None => match environment.get(&self.value) {
                Some(value) => Ok(value.clone()),
                None => Err(EvalError::UnknownIdentifier(self.value.clone())),
            },
        }
    }
}

impl Evaluate for Integer {
    open spec fn evaluated(&self, env: Scope, console: ConsoleView, fuel: nat) -> Outcome {
        eval_expression(self@, env, console, fuel)
    }

    /// Reads the text of the literal as an integer.
    fn eval(&self, environment: &mut Environment, console: &mut Console, fuel: usize) -> (result:
        Result<Object, EvalError>) {
        match parse_integer(self.val.as_str()) {
            Some(number) => Ok(Object::Int(number)),
            None => Err(EvalError::InvalidInteger(self.val.clone())),
        }
    }
}

impl Evaluate for StringExpression {
    open spec fn evaluated(&self, env: Scope, console: ConsoleView, fuel: nat) -> Outcome {
        eval_expression(self@, env, console, fuel)
    }

    fn eval(&self, environment: &mut Environment, console: &mut Console, fuel: usize) -> (result:
        Result<Object, EvalError>) {
        Ok(Object::String(self.val.clone()))
    }
}

impl Evaluate for Boolean {
    open spec fn evaluated(&self, env: Scope, console: ConsoleView, fuel: nat) -> Outcome {
        eval_expression(self@, env, console, fuel)
    }

    fn eval(&self, environment: &mut Environment, console: &mut Console, fuel: usize) -> (result:
        Result<Object, EvalError>) {
        Ok(Object::Bool(self.val))
    }
}

impl Evaluate for PrefixExpression {
    open spec fn evaluated(&self, env: Scope, console: ConsoleView, fuel: nat) -> Outcome {
        eval_prefix(self@, env, console, fuel)
    }

    /// Evaluates the operand, then applies the operator to it.
    fn eval(&self, environment: &mut Environment, console: &mut Console, fuel: usize) -> (result:
        Result<Object, EvalError>)
        decreases fuel, self,
    {
        match self.right.eval(environment, console, fuel) {
            Ok(value) => apply_prefix(&self.prefix, value),
            Err(error) => Err(error),
        }
    }
}

impl Evaluate for InfixExpression {
    open spec fn evaluated(&self, env: Scope, console: ConsoleView, fuel: nat) -> Outcome {
        eval_infix(self@, env, console, fuel)
    }

    /// Evaluates the left operand, then the right one, then applies the
    /// operator to the two values.
    fn eval(&self, environment: &mut Environment, console: &mut Console, fuel: usize) -> (result:
        Result<Object, EvalError>)
        decreases fuel, self,
    {
        let left = match self.left.eval(environment, console, fuel) {
            Ok(value) => value,
            Err(error) => {
                return Err(error);
            },
        };
        let right = match self.right.eval(environment, console, fuel) {
            Ok(value) => value,
            Err(error) => {
                return Err(error);
            },
        };
        apply_infix(&self.operator, left, right)
    }
}

impl Evaluate for IfExpression {
    open spec fn evaluated(&self, env: Scope, console: ConsoleView, fuel: nat) -> Outcome {
        eval_if(self@, env, console, fuel)
    }

    /// Evaluates the condition, which must give a boolean, and then the
    /// block that it selects; `Null` where it selects none.
    fn eval(&self, environment: &mut Environment, console: &mut Console, fuel: usize) -> (result:
        Result<Object, EvalError>)
        decreases fuel, self,
    {
        let test = match self.condition.eval(environment, console, fuel) {
            Ok(value) => value,
            Err(error) => {
                return Err(error);
            },
        };
        match test {
            Object::Bool(true) => eval_all(
                &self.consequence.statements,
                environment,
                console,
                false,
                fuel,
            ),
            Object::Bool(false) => match &self.alternative {
                Some(block) => eval_all(&block.statements, environment, console, false, fuel),
                None => Ok(Object::Null),
            },
            _ => Err(EvalError::UnexpectedObject(String::from_str("Boolean"))),
        }
    }
}

impl Evaluate for FunctionExpression {
    open spec fn evaluated(&self, env: Scope, console: ConsoleView, fuel: nat) -> Outcome {
        eval_expression(self@, env, console, fuel)
    }

    /// Makes a closure: copies of the parameters and of the body, and a
    /// duplicate of the whole scope as it is now.
    fn eval(&self, environment: &mut Environment, console: &mut Console, fuel: usize) -> (result:
        Result<Object, EvalError>) {
        Ok(
            Object::Function {
                parameters: clone_names(&self.parameters),
                body: self.body.clone_as_block_statement(),
                env: environment.clone(),
            },
        )
    }
}

impl Evaluate for ErrorExpression {
    open spec fn evaluated(&self, env: Scope, console: ConsoleView, fuel: nat) -> Outcome {
        eval_error(self@, env, console, fuel)
    }

    /// Evaluates the content and wraps its value as an error value.
    fn eval(&self, environment: &mut Environment, console: &mut Console, fuel: usize) -> (result:
        Result<Object, EvalError>)
        decreases fuel, self,
    {
        match self.content.eval(environment, console, fuel) {
            Ok(value) => Ok(Object::Error(Box::new(value))),
            Err(error) => Err(error),
        }
    }
}

impl Evaluate for AssignExpression {
    open spec fn evaluated(&self, env: Scope, console: ConsoleView, fuel: nat) -> Outcome {
        eval_assign(self@, env, console, fuel)
    }

    /// Evaluates the value, binds the name to it in the scope at hand, and
    /// gives the value bound.
    fn eval(&self, environment: &mut Environment, console: &mut Console, fuel: usize) -> (result:
        Result<Object, EvalError>)
        decreases fuel, self,
    {
        match self.value.eval(environment, console, fuel) {
            Ok(value) => {
                environment.set(self.name.value.clone(), value.clone());
                Ok(value)
            },
            Err(error) => Err(error),
        }
    }
}

impl Evaluate for Expression {
    open spec fn evaluated(&self, env: Scope, console: ConsoleView, fuel: nat) -> Outcome {
        eval_expression(self@, env, console, fuel)
    }

    fn eval(&self, environment: &mut Environment, console: &mut Console, fuel: usize) -> (result:
        Result<Object, EvalError>)
        decreases fuel, self,
    {
        match self {
            Expression::Identifier(node) => node.eval(environment, console, fuel),
            Expression::Integer(node) => node.eval(environment, console, fuel),
            Expression::String(node) => node.eval(environment, console, fuel),
            Expression::Boolean(node) => node.eval(environment, console, fuel),
            Expression::Prefix(node) => node.eval(environment, console, fuel),
            Expression::Infix(node) => node.eval(environment, console, fuel),
            Expression::If(node) => node.eval(environment, console, fuel),
            Expression::Function(node) => node.eval(environment, console, fuel),
            Expression::Call(node) => node.eval(environment, console, fuel),
            Expression::Error(node) => node.eval(environment, console, fuel),
            Expression::Assign(node) => node.eval(environment, console, fuel),
            Expression::While(node) => node.eval(environment, console, fuel),
        }
    }
}

} // verus!
