//! The native functions of the language.

use crate::evaluate::console::{trim_line, Console, ConsoleView};
use crate::evaluate::error::{result_view, EvalError};
use crate::evaluate::integer::parse_integer;
use crate::evaluate::object::{Object, ValueView};
use crate::evaluate::semantics::{
    apply_build_in, apply_cast_int, apply_input, apply_len, apply_print, shown_together,
    NativeOutcome,
};
use crate::lexer::token::Token;
use vstd::prelude::*;
use vstd::string::StringExecFns;

verus! {

/// The built-in `len`: the length of a string.
#[derive(Clone, Copy, Debug, PartialEq, Eq, Structural)]
pub struct LenFunction;

/// The built-in `input`: reads a line, after an optional prompt.
#[derive(Clone, Copy, Debug, PartialEq, Eq, Structural)]
pub struct InputFunction;

/// The built-in `int`: reads a string as an integer.
#[derive(Clone, Copy, Debug, PartialEq, Eq, Structural)]
pub struct CastIntFunction;

/// The built-in `print`: writes its arguments as one line.
#[derive(Clone, Copy, Debug, PartialEq, Eq, Structural)]
pub struct PrintFunction;

/// The closed set of native functions.
#[derive(Clone, Copy, Debug, PartialEq, Eq, Structural)]
pub enum BuildIn {
    Len(LenFunction),
    Input(InputFunction),
    CastInt(CastIntFunction),
    Print(PrintFunction),
}

/// The views of a list of values, in order.
pub open spec fn objects_view(list: Seq<Object>) -> Seq<ValueView> {
    list.map_values(|value: Object| value@)
}

/// Whether a result and the console it left agree with what a built-in is to do.
pub open spec fn matches_native(
    result: Result<Object, EvalError>,
    console: Console,
    outcome: NativeOutcome,
) -> bool {
    result_view(result) == outcome.result && console@ == outcome.console
}

/// A native function: it takes the values of its arguments, may read from
/// and write to the console, and returns a value or a fault.
pub trait BuildInFunction {
    /// What the function does with given arguments and console.
    spec fn applied(&self, args: Seq<ValueView>, console: ConsoleView) -> NativeOutcome;

    fn eval(&self, args: Vec<Object>, console: &mut Console) -> (result: Result<Object, EvalError>)
        ensures
            matches_native(
                result,
                *final(console),
                self.applied(objects_view(args@), old(console)@),
            ),
    ;
}

/// What can be copied as a native function.
pub trait CloneAsBuildInFunction {
    /// The native function that the copy is.
    spec fn native(&self) -> BuildIn;

    fn clone_as_build_in_function(&self) -> (copy: BuildIn)
        ensures
            copy == self.native(),
    ;
}

impl CloneAsBuildInFunction for LenFunction {
    open spec fn native(&self) -> BuildIn {
        BuildIn::Len(*self)
    }

    fn clone_as_build_in_function(&self) -> (copy: BuildIn) {
        BuildIn::Len(*self)
    }
}

impl CloneAsBuildInFunction for InputFunction {
    open spec fn native(&self) -> BuildIn {
        BuildIn::Input(*self)
    }

    fn clone_as_build_in_function(&self) -> (copy: BuildIn) {
        BuildIn::Input(*self)
    }
}

impl CloneAsBuildInFunction for CastIntFunction {
    open spec fn native(&self) -> BuildIn {
        BuildIn::CastInt(*self)
    }

    fn clone_as_build_in_function(&self) -> (copy: BuildIn) {
        BuildIn::CastInt(*self)
    }
}

impl CloneAsBuildInFunction for PrintFunction {
    open spec fn native(&self) -> BuildIn {
        BuildIn::Print(*self)
    }

    fn clone_as_build_in_function(&self) -> (copy: BuildIn) {
        BuildIn::Print(*self)
    }
}

impl CloneAsBuildInFunction for BuildIn {
    open spec fn native(&self) -> BuildIn {
        *self
    }

    fn clone_as_build_in_function(&self) -> (copy: BuildIn) {
        *self
    }
}

impl BuildInFunction for LenFunction {
    open spec fn applied(&self, args: Seq<ValueView>, console: ConsoleView) -> NativeOutcome {
        apply_len(args, console)
    }

    fn eval(&self, args: Vec<Object>, console: &mut Console) -> (result: Result<Object, EvalError>) {
        if args.len() != 1 {
            return Err(EvalError::DifferentAmountOfArguments);
        }
        assert(objects_view(args@)[0] == args[0]@);
        match &args[0] {
            Object::String(val) => {
                let length = val.as_str().as_bytes().len();
                if length > isize::MAX as usize {
                    Err(EvalError::IntegerOverflow)
                } else {
                    Ok(Object::Int(length as isize))
                }
            },
            other => Err(
                EvalError::IllegalOperation(Token::Ident(String::from_str("len")), other.clone()),
            ),
        }
    }
}

impl BuildInFunction for CastIntFunction {
    open spec fn applied(&self, args: Seq<ValueView>, console: ConsoleView) -> NativeOutcome {
        apply_cast_int(args, console)
    }

    fn eval(&self, args: Vec<Object>, console: &mut Console) -> (result: Result<Object, EvalError>) {
        if args.len() != 1 {
            return Err(EvalError::DifferentAmountOfArguments);
        }
        assert(objects_view(args@)[0] == args[0]@);
        match &args[0] {
            Object::String(val) => match parse_integer(val.as_str()) {
                Some(number) => Ok(Object::Int(number)),
                None => {
                    let message = String::from_str("Cannot cast ").concat(val.as_str()).concat(
                        " to int!",
                    );
                    let text = Object::String(message);
                    assert(text@ == ValueView::String(message@));
                    Ok(Object::Error(Box::new(text)))
                },
            },
            other => Err(
                EvalError::IllegalOperation(Token::Ident(String::from_str("int")), other.clone()),
            ),
        }
    }
}

impl BuildInFunction for PrintFunction {
    open spec fn applied(&self, args: Seq<ValueView>, console: ConsoleView) -> NativeOutcome {
        apply_print(args, console)
    }

    fn eval(&self, args: Vec<Object>, console: &mut Console) -> (result: Result<Object, EvalError>) {
        let mut line = String::new();
        let mut index: usize = 0;
        while index < args.len()
            invariant
                index <= args.len(),
                line@ == shown_together(objects_view(args@), index as nat),
            decreases args.len() - index,
        {
            let shown = args[index].to_string();
            line.append(shown.as_str());
            index = index + 1;
        }
        console.write(line.as_str());
        console.write("\n");
        Ok(Object::String(line))
    }
}

impl BuildInFunction for InputFunction {
    open spec fn applied(&self, args: Seq<ValueView>, console: ConsoleView) -> NativeOutcome {
        apply_input(args, console)
    }

    fn eval(&self, args: Vec<Object>, console: &mut Console) -> (result: Result<Object, EvalError>) {
        if args.len() > 1 {
            return Err(EvalError::DifferentAmountOfArguments);
        }
        if args.len() == 1 {
            assert(objects_view(args@)[0] == args[0]@);
            match &args[0] {
                Object::String(prompt) => {
                    console.write(prompt.as_str());
                },
                other => {
                    return Err(
                        EvalError::IllegalOperation(
                            Token::Ident(String::from_str("input")),
                            other.clone(),
                        ),
                    );
                },
            }
        } else {
            assert(console@.output + Seq::<char>::empty() =~= console@.output);
        }
        match console.read_line() {
            Some(line) => Ok(Object::String(trim_line(line.as_str()))),
            None => Err(EvalError::NoInput),
        }
    }
}

impl BuildInFunction for BuildIn {
    open spec fn applied(&self, args: Seq<ValueView>, console: ConsoleView) -> NativeOutcome {
        apply_build_in(*self, args, console)
    }

    fn eval(&self, args: Vec<Object>, console: &mut Console) -> (result: Result<Object, EvalError>) {
        match self {
            BuildIn::Len(native) => native.eval(args, console),
            BuildIn::Input(native) => native.eval(args, console),
            BuildIn::CastInt(native) => native.eval(args, console),
            BuildIn::Print(native) => native.eval(args, console),
        }
    }
}

} // verus!
