use writing_an_interpreter_in_go::ast::expression::Identifier;
use writing_an_interpreter_in_go::evaluate::build_in::{
    BuildIn, BuildInFunction, CloneAsBuildInFunction, LenFunction, PrintFunction,
};
use writing_an_interpreter_in_go::evaluate::console::Console;
use writing_an_interpreter_in_go::evaluate::environment::Environment;
use writing_an_interpreter_in_go::evaluate::error::EvalError;
use writing_an_interpreter_in_go::evaluate::object::Object;
use writing_an_interpreter_in_go::evaluate::operators::{apply_infix, apply_prefix};
use writing_an_interpreter_in_go::lexer::token::Token;

fn key(name: &str) -> String {
    name.to_string()
}

fn shown(object: Option<&Object>) -> Option<String> {
    object.map(|value| value.to_string())
}

#[test]
fn a_fresh_scope_binds_nothing() {
    let environment = Environment::new();
    assert!(environment.get(&key("x")).is_none());
    assert!(environment.store().is_empty());
    assert!(Environment::default().store().is_empty());
}

#[test]
fn set_binds_and_rebinds() {
    let mut environment = Environment::new();
    environment.set(key("x"), Object::Int(1));
    environment.set(key("y"), Object::Bool(true));
    assert_eq!(shown(environment.get(&key("x"))), Some(key("1")));
    assert_eq!(shown(environment.get(&key("y"))), Some(key("true")));
    environment.set(key("x"), Object::String(key("new")));
    assert_eq!(shown(environment.get(&key("x"))), Some(key("\"new\"")));
    assert_eq!(shown(environment.get(&key("y"))), Some(key("true")));
    assert_eq!(environment.store().len(), 2);
    assert!(environment.get(&key("z")).is_none());
}

#[test]
fn the_built_in_table_is_fixed() {
    let mut environment = Environment::new();
    for name in ["len", "input", "int", "print"] {
        assert!(matches!(environment.get_build_in(&key(name)), Some(Object::BuildIn(_))));
    }
    assert!(environment.get_build_in(&key("remove")).is_none());
    assert!(environment.get_build_in(&key("")).is_none());
    environment.set(key("other"), Object::Null);
    assert!(environment.get_build_in(&key("other")).is_none());
    environment.set(key("len"), Object::Null);
    assert!(matches!(environment.get_build_in(&key("len")), Some(Object::BuildIn(_))));
}

#[test]
fn a_duplicate_is_independent() {
    let mut environment = Environment::new();
    environment.set(key("x"), Object::Int(1));
    let mut copy = environment.duplicate();
    copy.set(key("x"), Object::Int(2));
    copy.set(key("y"), Object::Int(3));
    assert_eq!(shown(environment.get(&key("x"))), Some(key("1")));
    assert!(environment.get(&key("y")).is_none());
    assert_eq!(shown(copy.get(&key("x"))), Some(key("2")));
    let third = copy.clone();
    assert_eq!(shown(third.get(&key("y"))), Some(key("3")));
}

#[test]
fn overlay_prefers_the_bindings_laid_over() {
    let mut under = Environment::new();
    under.set(key("a"), Object::Int(1));
    under.set(key("b"), Object::Int(2));
    let mut over = Environment::new();
    over.set(key("b"), Object::Int(20));
    over.set(key("c"), Object::Int(30));
    under.overlay(&over);
    assert_eq!(shown(under.get(&key("a"))), Some(key("1")));
    assert_eq!(shown(under.get(&key("b"))), Some(key("20")));
    assert_eq!(shown(under.get(&key("c"))), Some(key("30")));
    assert_eq!(shown(over.get(&key("b"))), Some(key("20")));
    assert!(over.get(&key("a")).is_none());
}

#[test]
fn bind_takes_the_values_by_position_and_the_last_of_a_name() {
    let mut frame = Environment::new();
    frame.set(key("x"), Object::Int(0));
    let parameters = vec![
        Identifier::new(key("x")),
        Identifier::new(key("y")),
        Identifier::new(key("x")),
    ];
    frame.bind(&parameters, vec![Object::Int(1), Object::Int(2), Object::Int(3)]);
    assert_eq!(shown(frame.get(&key("x"))), Some(key("3")));
    assert_eq!(shown(frame.get(&key("y"))), Some(key("2")));
    frame.bind(&Vec::new(), Vec::new());
    assert_eq!(shown(frame.get(&key("x"))), Some(key("3")));
}

#[test]
fn a_console_hands_out_its_lines_in_order() {
    let mut console = Console::new(vec![key("one"), key("two")]);
    assert_eq!(console.read_line(), Some(key("one")));
    console.write("a");
    console.write("");
    console.write("bc\n");
    assert_eq!(console.read_line(), Some(key("two")));
    assert_eq!(console.read_line(), None);
    assert_eq!(console.read_line(), None);
    assert_eq!(console.output(), "abc\n");
}

#[test]
fn operators_apply_to_values() {
    assert_eq!(
        apply_infix(&Token::Plus, Object::Int(2), Object::Int(3)).expect("adds").to_string(),
        "5"
    );
    assert_eq!(
        apply_infix(&Token::Slash, Object::Int(-7), Object::Int(2)).expect("divides").to_string(),
        "-3"
    );
    assert_eq!(
        apply_infix(&Token::Modular, Object::Int(-7), Object::Int(2)).expect("divides").to_string(),
        "-1"
    );
    assert_eq!(
        apply_infix(
            &Token::Plus,
            Object::Return(Box::new(Object::Int(2))),
            Object::Return(Box::new(Object::Return(Box::new(Object::Int(3)))))
        )
        .expect("adds")
        .to_string(),
        "5"
    );
    assert_eq!(apply_prefix(&Token::Minus, Object::Int(2)).expect("negates").to_string(), "-2");
    assert_eq!(apply_prefix(&Token::Bang, Object::Bool(false)).expect("inverts").to_string(), "true");
    assert!(matches!(
        apply_prefix(&Token::Plus, Object::Int(2)),
        Err(EvalError::IllegalOperation(Token::Plus, Object::Int(2)))
    ));
    assert!(matches!(
        apply_infix(&Token::Comma, Object::Int(1), Object::Int(2)),
        Err(EvalError::IllegalOperation(Token::Comma, Object::Int(1)))
    ));
    assert!(matches!(
        apply_infix(&Token::Plus, Object::Null, Object::Null),
        Err(EvalError::IllegalOperation(Token::Plus, Object::Null))
    ));
    assert!(matches!(
        apply_infix(&Token::Equal, Object::Null, Object::Int(1)),
        Err(EvalError::MixedTypeOperation(Token::Equal, Object::Null, Object::Int(1)))
    ));
    assert_eq!(Object::Return(Box::new(Object::Int(1))).unwrap_return().to_string(), "1");
    assert_eq!(Object::Int(1).unwrap_return().to_string(), "1");
}

#[test]
fn faults_are_shown() {
    assert_eq!(
        EvalError::IllegalOperation(Token::Minus, Object::Bool(true)).to_string(),
        "Tried to apply illegal operation - to true!"
    );
    assert_eq!(
        EvalError::MixedTypeOperation(Token::Plus, Object::Int(1), Object::String(key("a")))
            .to_string(),
        "Tried to apply operation + between not matching values 1 and \"a\"!"
    );
    assert_eq!(EvalError::UnexpectedObject(key("Boolean")).to_string(), "Expected Boolean!");
    assert_eq!(
        EvalError::UnknownIdentifier(key("foo")).to_string(),
        "Found unknown identifier foo!"
    );
    assert_eq!(
        EvalError::DifferentAmountOfArguments.to_string(),
        "Called a function with another number of arguments than it takes!"
    );
    assert_eq!(
        EvalError::CannotCallNonFunction.to_string(),
        "Tried to call a value that is no function!"
    );
    assert_eq!(EvalError::DivisionByZero.to_string(), "Tried to divide by zero!");
    assert_eq!(EvalError::IntegerOverflow.to_string(), "The result does not fit an integer!");
    assert_eq!(EvalError::InvalidInteger(key("9x")).to_string(), "Cannot read 9x as an integer!");
    assert_eq!(EvalError::OutOfFuel.to_string(), "Ran out of fuel!");
    assert_eq!(EvalError::NoInput.to_string(), "Ran out of input!");
}

#[test]
fn a_copy_of_a_value_is_shown_as_the_value() {
    let values = vec![
        Object::Int(-5),
        Object::String(key("s")),
        Object::Bool(true),
        Object::Null,
        Object::Return(Box::new(Object::Int(1))),
        Object::Error(Box::new(Object::String(key("bad")))),
        Object::Array(vec![Box::new(Object::Int(1)), Box::new(Object::Null)]),
    ];
    for value in &values {
        assert_eq!(value.clone().to_string(), value.to_string());
        assert_eq!(value.clone().value(), value.value());
    }
}

#[test]
fn a_native_function_is_called_with_values() {
    let mut console = Console::new(Vec::new());
    let length = LenFunction.eval(vec![Object::String(key("four"))], &mut console).expect("counts");
    assert_eq!(length.to_string(), "4");
    let line = PrintFunction
        .eval(vec![Object::Int(1), Object::Null], &mut console)
        .expect("prints");
    assert_eq!(line.value(), "1null");
    assert_eq!(console.output(), "1null\n");
    assert_eq!(LenFunction.clone_as_build_in_function(), BuildIn::Len(LenFunction));
    let native = PrintFunction.clone_as_build_in_function();
    assert_eq!(native.clone_as_build_in_function(), BuildIn::Print(PrintFunction));
    native.eval(vec![Object::Bool(true)], &mut console).expect("prints");
    assert_eq!(console.output(), "1null\ntrue\n");
}
