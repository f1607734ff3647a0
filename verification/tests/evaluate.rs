use writing_an_interpreter_in_go::evaluate::console::Console;
use writing_an_interpreter_in_go::evaluate::environment::Environment;
use writing_an_interpreter_in_go::evaluate::error::EvalError;
use writing_an_interpreter_in_go::evaluate::evaluate::eval_program;
use writing_an_interpreter_in_go::evaluate::object::Object;
use writing_an_interpreter_in_go::lexer::lexer::Lexer;
use writing_an_interpreter_in_go::parser::parser::Parser;

const FUEL: usize = 10_000;

fn run_in(
    source: &str,
    environment: &mut Environment,
    console: &mut Console,
    fuel: usize,
) -> Result<Object, EvalError> {
    let tokens = Lexer::new(source).generate_tokens();
    let program = Parser::new(tokens).parse().expect("the source is a program");
    eval_program(program, environment, console, fuel)
}

fn run(source: &str) -> Result<Object, EvalError> {
    run_in(source, &mut Environment::new(), &mut Console::new(Vec::new()), FUEL)
}

fn shown(source: &str) -> String {
    run(source).expect("the program runs").to_string()
}

#[test]
fn integer_arithmetic_is_that_of_the_machine() {
    assert_eq!(shown("7 + 3"), "10");
    assert_eq!(shown("7 - 3"), "4");
    assert_eq!(shown("7 * 3"), "21");
    assert_eq!(shown("7 / 3"), "2");
    assert_eq!(shown("7 % 3"), "1");
    assert_eq!(shown("(0 - 7) / 2"), "-3");
    assert_eq!(shown("(0 - 7) % 2"), "-1");
    assert_eq!(shown("7 / (0 - 2)"), "-3");
    assert_eq!(shown("7 % (0 - 2)"), "1");
    assert_eq!(shown("-7 / -2"), "3");
}

#[test]
fn a_zero_divisor_is_a_fault() {
    assert!(matches!(run("1 / 0"), Err(EvalError::DivisionByZero)));
    assert!(matches!(run("1 % 0"), Err(EvalError::DivisionByZero)));
}

#[test]
fn an_overflow_is_a_fault() {
    let max = isize::MAX.to_string();
    assert!(matches!(run(&format!("{max} + 1")), Err(EvalError::IntegerOverflow)));
    assert!(matches!(run(&format!("{max} * 2")), Err(EvalError::IntegerOverflow)));
    assert!(matches!(run(&format!("-{max} - 2")), Err(EvalError::IntegerOverflow)));
    assert!(matches!(run(&format!("(-{max} - 1) / -1")), Err(EvalError::IntegerOverflow)));
    assert!(matches!(run(&format!("(-{max} - 1) % -1")), Err(EvalError::IntegerOverflow)));
    assert!(matches!(run(&format!("-(-{max} - 1)")), Err(EvalError::IntegerOverflow)));
    assert_eq!(shown(&format!("{max} + 0")), max);
}

#[test]
fn an_integer_literal_that_does_not_fit_is_a_fault() {
    match run("99999999999999999999999999999999") {
        Err(EvalError::InvalidInteger(text)) => {
            assert_eq!(text, "99999999999999999999999999999999")
        }
        other => panic!("unexpected: {other:?}"),
    }
}

#[test]
fn negation_inverts_a_boolean() {
    assert_eq!(shown("!true"), "false");
    assert_eq!(shown("!false"), "true");
    assert_eq!(shown("!!true"), "true");
    assert_eq!(shown("!!false"), "false");
    assert_eq!(shown("!!(1 < 2)"), "true");
}

#[test]
fn a_prefix_operator_refuses_other_operands() {
    assert!(matches!(run("-true"), Err(EvalError::IllegalOperation(_, Object::Bool(true)))));
    assert!(matches!(run("!1"), Err(EvalError::IllegalOperation(_, Object::Int(1)))));
    assert!(matches!(run("-\"a\""), Err(EvalError::IllegalOperation(_, Object::String(_)))));
}

#[test]
fn mixed_operands_are_refused() {
    match run("1 + true") {
        Err(EvalError::MixedTypeOperation(operator, left, right)) => {
            assert_eq!(operator.to_string(), "+");
            assert!(matches!(left, Object::Int(1)));
            assert!(matches!(right, Object::Bool(true)));
        }
        other => panic!("unexpected: {other:?}"),
    }
    assert!(matches!(run("\"a\" == 1"), Err(EvalError::MixedTypeOperation(_, _, _))));
    assert!(matches!(run("true && 1"), Err(EvalError::MixedTypeOperation(_, _, _))));
    assert!(matches!(run("1 < \"2\""), Err(EvalError::MixedTypeOperation(_, _, _))));
}

#[test]
fn operators_refuse_operands_of_the_wrong_kind() {
    assert!(matches!(run("true + false"), Err(EvalError::IllegalOperation(_, Object::Bool(true)))));
    assert!(matches!(run("\"a\" - \"b\""), Err(EvalError::IllegalOperation(_, _))));
    assert!(matches!(run("\"a\" < \"b\""), Err(EvalError::IllegalOperation(_, _))));
    assert!(matches!(run("1 || 2"), Err(EvalError::IllegalOperation(_, Object::Int(1)))));
    assert!(matches!(run("fn(){} == fn(){}"), Err(EvalError::IllegalOperation(_, _))));
}

#[test]
fn strings_are_joined_and_compared() {
    assert_eq!(shown("\"ab\" + \"cd\""), "\"abcd\"");
    assert_eq!(shown("\"ab\" == \"ab\""), "true");
    assert_eq!(shown("\"ab\" != \"ab\""), "false");
    assert_eq!(shown("\"ab\" == \"abc\""), "false");
}

#[test]
fn comparisons_and_logic() {
    assert_eq!(shown("1 < 2"), "true");
    assert_eq!(shown("2 <= 2"), "true");
    assert_eq!(shown("1 > 2"), "false");
    assert_eq!(shown("1 >= 2"), "false");
    assert_eq!(shown("1 == 1"), "true");
    assert_eq!(shown("1 != 1"), "false");
    assert_eq!(shown("true == false"), "false");
    assert_eq!(shown("true || false"), "true");
    assert_eq!(shown("true && false"), "false");
}

#[test]
fn operators_of_one_rank_associate_to_the_left() {
    assert_eq!(shown("10 - 4 - 3"), "3");
    assert_eq!(shown("100 / 10 / 5"), "2");
    assert_eq!(shown("2 + 3 * 4"), "14");
    assert_eq!(shown("(2 + 3) * 4"), "20");
    assert_eq!(shown("1 + 2 < 4 == true"), "true");
    assert_eq!(shown("-2 * 3"), "-6");
}

#[test]
fn a_conditional_selects_a_block() {
    assert_eq!(shown("if (true) { 1 } else { 2 }"), "1");
    assert_eq!(shown("if (false) { 1 } else { 2 }"), "2");
    assert_eq!(shown("if (false) { 1 }"), "null");
    assert!(matches!(run("if (false) { 1 }"), Ok(Object::Null)));
    assert_eq!(shown("if (1 < 2) { 10; 20 }"), "20");
}

#[test]
fn a_condition_must_be_a_boolean() {
    match run("if (1) { 2 }") {
        Err(EvalError::UnexpectedObject(expected)) => assert_eq!(expected, "Boolean"),
        other => panic!("unexpected: {other:?}"),
    }
    assert!(matches!(run("while (1) { 2 }"), Err(EvalError::UnexpectedObject(_))));
}

#[test]
fn a_function_is_called_with_its_argument() {
    assert_eq!(shown("fn(x){ ret x + 1; }(4)"), "5");
    assert_eq!(shown("let f = fn(x){ ret x + 1; }; f(4);"), "5");
    assert_eq!(shown("let f = fn(x, y){ x * y }; f(3, 4)"), "12");
    assert_eq!(shown("let f = fn(){ 7 }; f()"), "7");
}

#[test]
fn a_closure_keeps_what_it_captured() {
    assert_eq!(
        shown("let make = fn(n){ fn(x){ ret x + n; } }; let addFive = make(5); addFive(10);"),
        "15"
    );
}

#[test]
fn a_closure_does_not_see_later_changes_of_the_defining_scope() {
    assert_eq!(shown("let n = 1; let f = fn(){ n }; let n = 2; f()"), "1");
}

#[test]
fn the_frame_of_a_call_puts_captured_names_over_those_of_the_caller() {
    // `a` is not captured when `f` is made, so the call sees the caller's `a`.
    assert_eq!(shown("let f = fn(){ a }; let a = 3; f()"), "3");
    // Parameters come over everything.
    assert_eq!(shown("let x = 1; let f = fn(x){ x }; f(9)"), "9");
}

#[test]
fn a_call_leaves_the_scope_of_the_caller_alone() {
    assert_eq!(shown("let x = 1; let f = fn(){ let x = 2; x }; f(); x"), "1");
}

#[test]
fn a_wrong_number_of_arguments_is_refused_before_anything_runs() {
    let mut environment = Environment::new();
    let mut console = Console::new(Vec::new());
    let result = run_in(
        "let f = fn(x){ print(\"body\"); x }; f(print(\"argument\"), 2)",
        &mut environment,
        &mut console,
        FUEL,
    );
    assert!(matches!(result, Err(EvalError::DifferentAmountOfArguments)));
    assert_eq!(console.output(), "");
    assert!(matches!(run("fn(){ 1 }(1)"), Err(EvalError::DifferentAmountOfArguments)));
    assert!(matches!(run("fn(a, b){ 1 }(1)"), Err(EvalError::DifferentAmountOfArguments)));
}

#[test]
fn a_value_that_is_no_function_cannot_be_called() {
    assert!(matches!(run("1(2)"), Err(EvalError::CannotCallNonFunction)));
    assert!(matches!(run("let x = \"f\"; x()"), Err(EvalError::CannotCallNonFunction)));
}

#[test]
fn a_loop_runs_while_its_condition_holds() {
    assert_eq!(shown("while (false) { 1 }"), "null");
    assert_eq!(shown("let i = 0; while (i < 5) { let i = i + 1; }; i"), "5");
    assert_eq!(shown("let i = 0; while (i < 5) { let i = i + 1; i * 2 }"), "10");
    assert_eq!(
        shown("let i = 0; let sum = 0; while (i < 4) { let i = i + 1; let sum = sum + i; }; sum"),
        "10"
    );
}

#[test]
fn a_return_inside_a_loop_ends_the_function() {
    assert_eq!(
        shown("let f = fn(){ let i = 0; while (true) { let i = i + 1; if (i == 3) { ret i; } } }; f()"),
        "3"
    );
}

#[test]
fn a_return_ends_the_block_and_is_taken_off_at_the_call() {
    assert_eq!(shown("let f = fn(){ ret 1; 2 }; f()"), "1");
    assert_eq!(shown("let f = fn(x){ if (x) { ret 1; } 2 }; f(true) + f(false)"), "3");
    assert_eq!(shown("ret 5; 6"), "5");
}

#[test]
fn an_unknown_identifier_is_named_in_the_error() {
    match run("foo") {
        Err(EvalError::UnknownIdentifier(name)) => assert_eq!(name, "foo"),
        other => panic!("unexpected: {other:?}"),
    }
    match run("let a = 1; a + bar") {
        Err(EvalError::UnknownIdentifier(name)) => assert_eq!(name, "bar"),
        other => panic!("unexpected: {other:?}"),
    }
}

#[test]
fn an_empty_program_gives_null() {
    assert!(matches!(run(""), Ok(Object::Null)));
}

#[test]
fn let_binds_and_gives_the_value() {
    assert_eq!(shown("let x = 5;"), "5");
    assert_eq!(shown("let x = 5; let y = x * 2; y + x"), "15");
}

#[test]
fn the_scope_outlives_a_program() {
    let mut environment = Environment::new();
    let mut console = Console::new(Vec::new());
    run_in("let x = 41;", &mut environment, &mut console, FUEL).expect("runs");
    let result = run_in("x + 1", &mut environment, &mut console, FUEL).expect("runs");
    assert_eq!(result.to_string(), "42");
    assert!(environment.get(&"x".to_string()).is_some());
    assert!(environment.get(&"y".to_string()).is_none());
}

#[test]
fn recursion_takes_fuel() {
    let source = "let down = fn(n){ if (n == 0) { ret 0; } ret down(n - 1); }; down(5)";
    assert_eq!(
        run_in(source, &mut Environment::new(), &mut Console::new(Vec::new()), 6)
            .expect("six calls fit")
            .to_string(),
        "0"
    );
    assert!(matches!(
        run_in(source, &mut Environment::new(), &mut Console::new(Vec::new()), 5),
        Err(EvalError::OutOfFuel)
    ));
    assert!(matches!(
        run_in(
            "let f = fn(){ f() }; f()",
            &mut Environment::new(),
            &mut Console::new(Vec::new()),
            50
        ),
        Err(EvalError::OutOfFuel)
    ));
}

#[test]
fn a_loop_takes_one_unit_of_fuel_for_each_round() {
    let source = "let i = 0; while (i < 3) { let i = i + 1; }; i";
    assert_eq!(
        run_in(source, &mut Environment::new(), &mut Console::new(Vec::new()), 3)
            .expect("three rounds fit")
            .to_string(),
        "3"
    );
    assert!(matches!(
        run_in(source, &mut Environment::new(), &mut Console::new(Vec::new()), 2),
        Err(EvalError::OutOfFuel)
    ));
    assert!(matches!(
        run_in("while (true) { 1 }", &mut Environment::new(), &mut Console::new(Vec::new()), 100),
        Err(EvalError::OutOfFuel)
    ));
}

#[test]
fn what_needs_no_call_and_no_round_needs_no_fuel() {
    assert_eq!(
        run_in(
            "if (1 + 2 == 3) { \"yes\" } else { \"no\" }",
            &mut Environment::new(),
            &mut Console::new(Vec::new()),
            0
        )
        .expect("runs")
        .to_string(),
        "\"yes\""
    );
    assert!(matches!(
        run_in("fn(){ 1 }()", &mut Environment::new(), &mut Console::new(Vec::new()), 0),
        Err(EvalError::OutOfFuel)
    ));
}

#[test]
fn len_counts_the_bytes_of_a_string() {
    assert_eq!(shown("len(\"hello\")"), "5");
    assert_eq!(shown("len(\"\")"), "0");
    assert_eq!(shown("len(\"é\")"), "2");
    assert!(matches!(run("len(1)"), Err(EvalError::IllegalOperation(_, Object::Int(1)))));
    assert!(matches!(run("len()"), Err(EvalError::DifferentAmountOfArguments)));
    assert!(matches!(run("len(\"a\", \"b\")"), Err(EvalError::DifferentAmountOfArguments)));
}

#[test]
fn int_reads_a_string_as_an_integer() {
    assert_eq!(shown("int(\"42\")"), "42");
    assert_eq!(shown("int(\"-42\")"), "-42");
    assert_eq!(shown("int(\"+42\")"), "42");
    assert_eq!(shown("int(\"007\")"), "7");
    assert_eq!(shown("int(\"4\") + 1"), "5");
    assert_eq!(shown("int(\"abc\")"), "err: \"Cannot cast abc to int!\"");
    assert_eq!(shown("int(\"\")"), "err: \"Cannot cast  to int!\"");
    assert_eq!(shown("int(\"-\")"), "err: \"Cannot cast - to int!\"");
    assert_eq!(shown("int(\" 1\")"), "err: \"Cannot cast  1 to int!\"");
    assert_eq!(shown("int(\"1 \")"), "err: \"Cannot cast 1  to int!\"");
    assert_eq!(shown("int(\"1_0\")"), "err: \"Cannot cast 1_0 to int!\"");
    assert_eq!(
        shown("int(\"99999999999999999999999\")"),
        "err: \"Cannot cast 99999999999999999999999 to int!\""
    );
    assert!(matches!(run("int(1)"), Err(EvalError::IllegalOperation(_, Object::Int(1)))));
    assert!(matches!(run("int()"), Err(EvalError::DifferentAmountOfArguments)));
}

#[test]
fn print_writes_a_line_and_gives_it_back() {
    let mut console = Console::new(Vec::new());
    let result = run_in(
        "print(\"a\", 1, true); print(); print(fn(){}, len)",
        &mut Environment::new(),
        &mut console,
        FUEL,
    )
    .expect("runs");
    assert_eq!(console.output(), "\"a\"1true\n\nfnbuild_in\n");
    assert_eq!(result.value(), "fnbuild_in");
}

#[test]
fn input_reads_the_next_line_without_the_space_around_it() {
    let mut console = Console::new(vec!["  first \n".to_string(), "second".to_string()]);
    let result = run_in(
        "let a = input(\"? \"); let b = input(); a + b",
        &mut Environment::new(),
        &mut console,
        FUEL,
    )
    .expect("runs");
    assert_eq!(result.value(), "firstsecond");
    assert_eq!(console.output(), "? ");
}

#[test]
fn input_without_a_line_left_is_a_fault_after_the_prompt() {
    let mut console = Console::new(vec!["one".to_string()]);
    let result = run_in(
        "print(input(\"first: \")); input(\"second: \"); print(\"never\")",
        &mut Environment::new(),
        &mut console,
        FUEL,
    );
    assert!(matches!(result, Err(EvalError::NoInput)));
    assert_eq!(console.output(), "first: \"one\"\nsecond: ");
}

#[test]
fn input_refuses_a_prompt_that_is_no_string() {
    assert!(matches!(run("input(1)"), Err(EvalError::IllegalOperation(_, Object::Int(1)))));
    assert!(matches!(run("input(\"a\", \"b\")"), Err(EvalError::DifferentAmountOfArguments)));
}

#[test]
fn built_ins_come_before_variables() {
    assert_eq!(shown("let len = 1; len"), "build_in");
    assert_eq!(shown("let len = 1; len(\"ab\")"), "2");
}

#[test]
fn values_are_shown() {
    assert_eq!(shown("1"), "1");
    assert_eq!(shown("0 - 12"), "-12");
    assert_eq!(shown("\"a\""), "\"a\"");
    assert_eq!(shown("true"), "true");
    assert_eq!(shown("fn(x){ x }"), "fn");
    assert_eq!(shown("len"), "build_in");
    assert_eq!(run("\"a\"").expect("runs").value(), "a");
    assert_eq!(Object::Return(Box::new(Object::Int(3))).to_string(), "ret 3");
    assert_eq!(Object::Return(Box::new(Object::Int(3))).value(), "3");
    assert_eq!(Object::Error(Box::new(Object::Null)).to_string(), "err: null");
    assert_eq!(
        Object::Array(vec![
            Box::new(Object::Int(1)),
            Box::new(Object::String("a".to_string())),
            Box::new(Object::Bool(false)),
        ])
        .to_string(),
        "[1, \"a\", false]"
    );
    assert_eq!(Object::Array(Vec::new()).to_string(), "[]");
    assert_eq!(Object::Int(isize::MIN).to_string(), isize::MIN.to_string());
}

#[test]
fn values_of_one_kind_are_variant_equal() {
    assert!(Object::variant_is_equal(&Object::Int(1), &Object::Int(2)));
    assert!(!Object::variant_is_equal(&Object::Int(1), &Object::Bool(true)));
    assert!(Object::variant_is_equal(&Object::Null, &Object::Null));
    assert!(!Object::variant_is_equal(
        &Object::Return(Box::new(Object::Int(1))),
        &Object::Int(1)
    ));
}

#[test]
fn a_return_signal_around_an_operand_is_taken_off() {
    assert_eq!(shown("(if (true) { ret 5; }) + 1"), "6");
    assert_eq!(shown("-(if (true) { ret 5; })"), "-5");
}

#[test]
fn int_agrees_with_the_parser_of_the_standard_library() {
    let texts = [
        "0", "-0", "+0", "1", "-1", "+1", "00012", "-00012", "9223372036854775807",
        "-9223372036854775808", "9223372036854775808", "-9223372036854775809",
        "2147483647", "-2147483648", "2147483648", "12a", "a12", "1 2", "--1", "+-1", "-+1", "++1",
        "1-", "", "-", "+", " ", "1.0", "1e3", "0x10", "١٢", "１２", "18446744073709551616",
        "340282366920938463463374607431768211456", "000000000000000000000000000000000000001",
    ];
    for text in texts {
        let source = format!("int(\"{text}\")");
        let expected = match text.parse::<isize>() {
            Ok(number) => number.to_string(),
            Err(_) => format!("err: \"Cannot cast {text} to int!\""),
        };
        assert_eq!(shown(&source), expected, "{text}");
    }
}

#[test]
fn integers_are_shown_as_the_standard_library_shows_them() {
    let numbers = [
        0isize,
        1,
        -1,
        9,
        10,
        11,
        99,
        100,
        101,
        -9,
        -10,
        -100,
        12345,
        -12345,
        1000000007,
        isize::MAX,
        isize::MIN,
        isize::MAX - 1,
        isize::MIN + 1,
    ];
    for number in numbers {
        assert_eq!(Object::Int(number).to_string(), number.to_string());
        assert_eq!(Object::Int(number).value(), number.to_string());
    }
}

#[test]
fn input_trims_as_the_standard_library_trims() {
    let lines = [
        "plain",
        "  two  words  ",
        "\tindented\r\n",
        "\n",
        "",
        "   ",
        "\u{a0}hard space\u{a0}",
        "\u{3000}wide\u{3000}",
        "\u{2003}em\u{2009}thin\u{200a}",
        "\u{85}next line\u{2028}\u{2029}",
        "\u{1680}ogham\u{202f}\u{205f}",
        "\u{200b}zero width is kept\u{200b}",
        "\u{feff}mark is kept",
        "x\u{b}\u{c}",
        " inner\tspace stays ",
    ];
    for line in lines {
        let mut console = Console::new(vec![line.to_string()]);
        let result = run_in("input()", &mut Environment::new(), &mut console, FUEL).expect("runs");
        assert_eq!(result.value(), line.trim(), "{line:?}");
    }
}

#[test]
fn an_integer_literal_is_read_in_decimal() {
    assert_eq!(shown("0"), "0");
    assert_eq!(shown("007"), "7");
    assert_eq!(shown("1234567890"), "1234567890");
    assert_eq!(shown(&isize::MAX.to_string()), isize::MAX.to_string());
}
