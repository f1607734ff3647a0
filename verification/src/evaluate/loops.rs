//! The evaluation of loops.

use crate::ast::expression::WhileExpression;
use crate::evaluate::semantics::{eval_while, Outcome, Scope};
use crate::evaluate::console::{Console, ConsoleView};
use crate::evaluate::environment::Environment;
use crate::evaluate::error::{ErrorView, EvalError};
use crate::evaluate::evaluate::{eval_all, Evaluate};
use crate::evaluate::object::{Object, ValueView};
use vstd::prelude::*;
use vstd::string::StringExecFns;

verus! {

impl Evaluate for WhileExpression {
    open spec fn evaluated(&self, env: Scope, console: ConsoleView, fuel: nat) -> Outcome {
        eval_while(self@, ValueView::Null, env, console, fuel)
    }

    /// Runs the body as long as the condition, looked at before each round,
    /// gives `true`. The result is that of the last round, `Null` if there
    /// was none; a return signal from the body ends the loop and is handed on.
    fn eval(&self, environment: &mut Environment, console: &mut Console, fuel: usize) -> (result:
        Result<Object, EvalError>)
        decreases fuel, self,
    {
        let mut last = Object::Null;
        let mut left: usize = fuel;
        loop
            invariant
                left <= fuel,
                eval_while(self@, last@, environment@, console@, left as nat) == eval_while(
                    self@,
                    ValueView::Null,
                    old(environment)@,
                    old(console)@,
                    fuel as nat,
                ),
            decreases left,
        {
            let test = match self.condition.eval(environment, console, left) {
                Ok(value) => value,
                Err(error) => {
                    return Err(error);
                },
            };
            match test {
                Object::Bool(true) => {
                    if left == 0 {
                        return Err(EvalError::OutOfFuel);
                    }
                    left = left - 1;
                    match eval_all(&self.consequence.statements, environment, console, false, left) {
                        Ok(value) => {
                            if let Object::Return(_) = &value {
                                return Ok(value);
                            }
                            last = value;
                        },
                        Err(error) => {
                            return Err(error);
                        },
                    }
                },
                Object::Bool(false) => {
                    return Ok(last);
                },
                _ => {
                    return Err(EvalError::UnexpectedObject(String::from_str("Boolean")));
                },
            }
        }
    }
}

} // verus!
