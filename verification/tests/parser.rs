use writing_an_interpreter_in_go::ast::expression::{
    Boolean, CallExpression, CloneAsExpression, Expression, Identifier, InfixExpression, Integer,
    PrefixExpression,
};
use writing_an_interpreter_in_go::ast::precedences::Precedences;
use writing_an_interpreter_in_go::ast::statement::{
    BlockStatement, CloneAsStatement, ExpressionStatement, LetStatement, ReturnStatement,
    Statement,
};
use writing_an_interpreter_in_go::evaluate::console::Console;
use writing_an_interpreter_in_go::evaluate::environment::Environment;
use writing_an_interpreter_in_go::evaluate::evaluate::eval_program;
use writing_an_interpreter_in_go::evaluate::object::Object;
use writing_an_interpreter_in_go::lexer::lexer::Lexer;
use writing_an_interpreter_in_go::lexer::token::Token;
use writing_an_interpreter_in_go::parser::error::ParseError;
use writing_an_interpreter_in_go::parser::parser::Parser;
use writing_an_interpreter_in_go::parser::program::Program;

fn number(text: &str) -> Token {
    Token::Int(text.to_string())
}

fn name(text: &str) -> Token {
    Token::Ident(text.to_string())
}

fn parse(source: &str) -> Result<Program, ParseError> {
    Parser::new(Lexer::new(source).generate_tokens()).parse()
}

/// The statements of the program that `source` is, as source text.
fn text(source: &str) -> String {
    let program = parse(source).expect("the source is a program");
    let shown: Vec<String> = program.statements().iter().map(|s| s.to_string()).collect();
    shown.join(" ")
}

fn value(source: &str) -> String {
    let program = parse(source).expect("the source is a program");
    eval_program(program, &mut Environment::new(), &mut Console::new(Vec::new()), 10_000)
        .expect("the program runs")
        .to_string()
}

#[test]
fn parses_and_evaluates_a_sum_of_products() {
    // 1 + 2 * 3;
    let tokens = vec![
        number("1"),
        Token::Plus,
        number("2"),
        Token::Asterisk,
        number("3"),
        Token::Semicolon,
        Token::Eof,
    ];
    let mut parser = Parser::new(tokens);
    let program = parser.parse().expect("the tokens form a program");
    assert_eq!(parser.pointer_position(), 6);
    let mut environment = Environment::new();
    let mut console = Console::new(Vec::new());
    let result = eval_program(program, &mut environment, &mut console, 100).expect("no fault");
    assert!(matches!(result, Object::Int(7)));
}

#[test]
fn binding_powers_shape_the_tree() {
    assert_eq!(text("1 + 2 * 3"), "(1 + (2 * 3));");
    assert_eq!(text("1 * 2 + 3"), "((1 * 2) + 3);");
    assert_eq!(text("1 - 2 - 3"), "((1 - 2) - 3);");
    assert_eq!(text("a + b % c"), "(a + (b % c));");
    assert_eq!(text("1 < 2 == 3 > 4"), "((1 < 2) == (3 > 4));");
    assert_eq!(text("a == b || c != d && e"), "(((a == b) || (c != d)) && e);");
    assert_eq!(text("1 + 2 <= 3 * 4"), "((1 + 2) <= (3 * 4));");
    assert_eq!(text("a >= b"), "(a >= b);");
}

#[test]
fn prefix_operators_bind_tighter_than_binary_ones() {
    assert_eq!(text("-a * b"), "((-a) * b);");
    assert_eq!(text("!a == b"), "((!a) == b);");
    assert_eq!(text("--a"), "(-(-a));");
    assert_eq!(text("-f(x)"), "(-f(x));");
    assert_eq!(text("a + -b"), "(a + (-b));");
}

#[test]
fn parentheses_group() {
    assert_eq!(text("(1 + 2) * 3"), "((1 + 2) * 3);");
    assert_eq!(text("((a))"), "a;");
    assert_eq!(text("-(a + b)"), "(-(a + b));");
}

#[test]
fn calls_bind_tightest() {
    assert_eq!(text("f(1) + g(2, 3)"), "(f(1) + g(2,3));");
    assert_eq!(text("f()"), "f();");
    assert_eq!(text("f(a)(b)"), "f(a)(b);");
    assert_eq!(text("f(a, b,)"), "f(a,b);");
    assert_eq!(text("(a + b)(c)"), "(a + b)(c);");
    assert_eq!(text("fn(x){ x }(1)"), "fn(x){ x; }(1);");
}

#[test]
fn statements_are_told_by_their_first_token() {
    assert_eq!(text("let x = 1 + 2;"), "let x = (1 + 2);");
    assert_eq!(text("ret x;"), "ret x;");
    assert_eq!(text("x"), "x;");
    assert_eq!(text("x; y; z"), "x; y; z;");
    assert_eq!(text("\"a b\";"), "\"a b\";");
    assert_eq!(text("true; false"), "true; false;");
}

#[test]
fn conditionals_loops_and_functions() {
    assert_eq!(text("if (a) { b }"), "if (a) { b; };");
    assert_eq!(text("if (a) { b; c } else { d }"), "if (a) { b; c; } else { d; };");
    assert_eq!(text("if (a) { }"), "if (a) {  };");
    assert_eq!(text("while (i < 3) { let i = i + 1; }"), "while ((i < 3)) { let i = (i + 1); };");
    assert_eq!(text("fn(){ }"), "fn(){  };");
    assert_eq!(text("fn(a){ ret a; }"), "fn(a){ ret a; };");
    assert_eq!(text("fn(a, b,){ a + b }"), "fn(a,b){ (a + b); };");
    assert_eq!(
        text("let f = fn(x){ if (x) { ret 1; } 2 };"),
        "let f = fn(x){ if (x) { ret 1; }; 2; };"
    );
}

#[test]
fn a_program_is_shown_line_by_line() {
    let program = parse("let a = 1; a + 2").expect("parses");
    assert_eq!(program.to_string(), "program: {\n    let a = 1;\n    (a + 2);\n}");
    assert_eq!(Program::new().to_string(), "program: {\n}");
    assert_eq!(program.statements().len(), 2);
}

#[test]
fn parsing_stops_at_the_end_marker() {
    let mut parser = Parser::new(vec![number("1"), Token::Eof, number("2")]);
    let program = parser.parse().expect("parses");
    assert_eq!(program.statements().len(), 1);
    assert_eq!(parser.pointer_position(), 1);
    let mut parser = Parser::new(vec![number("1"), Token::Semicolon, number("2")]);
    let program = parser.parse().expect("parses");
    assert_eq!(program.statements().len(), 2);
    assert!(parser.out_of_tokens());
    assert!(Parser::new(Vec::new()).parse().expect("parses").statements().is_empty());
}

#[test]
fn a_token_without_a_rule_is_unexpected() {
    assert!(matches!(parse("+"), Err(ParseError::UnexpectedToken(Token::Plus))));
    assert!(matches!(parse("1 + ;"), Err(ParseError::UnexpectedToken(Token::Semicolon))));
    assert!(matches!(parse("1 + *"), Err(ParseError::UnexpectedToken(Token::Asterisk))));
    assert!(matches!(parse(")"), Err(ParseError::UnexpectedToken(Token::RParent))));
    assert!(matches!(parse("1 2 }"), Err(ParseError::UnexpectedToken(Token::RBrace))));
    assert!(matches!(parse("?"), Err(ParseError::UnexpectedToken(Token::Illegal))));
    assert!(matches!(parse("err 1"), Err(ParseError::UnexpectedToken(Token::Error))));
    assert!(matches!(parse("x = 1"), Err(ParseError::UnexpectedToken(Token::Assign))));
}

#[test]
fn a_missing_delimiter_is_reported_with_the_token_found() {
    assert!(matches!(parse("(1 + 2"), Err(ParseError::UnexpectedToken(Token::Eof))));
    assert!(matches!(parse("(1 + 2;"), Err(ParseError::UnexpectedToken(Token::Semicolon))));
    assert!(matches!(parse("let x 1;"), Err(ParseError::UnexpectedToken(Token::Int(_)))));
    assert!(matches!(parse("let 1 = 1;"), Err(ParseError::UnexpectedToken(Token::Int(_)))));
    assert!(matches!(parse("let x = 1"), Err(ParseError::UnexpectedToken(Token::Eof))));
    assert!(matches!(parse("ret 1"), Err(ParseError::UnexpectedToken(Token::Eof))));
    assert!(matches!(parse("if a { b }"), Err(ParseError::UnexpectedToken(Token::Ident(_)))));
    assert!(matches!(parse("if (a) b"), Err(ParseError::UnexpectedToken(Token::Ident(_)))));
    assert!(matches!(parse("if (a) { b } else c"), Err(ParseError::UnexpectedToken(Token::Ident(_)))));
    assert!(matches!(parse("fn x { }"), Err(ParseError::UnexpectedToken(Token::Ident(_)))));
    assert!(matches!(parse("fn(1){ }"), Err(ParseError::UnexpectedToken(Token::Int(_)))));
    assert!(matches!(parse("fn(a b){ }"), Err(ParseError::UnexpectedToken(Token::Ident(_)))));
    assert!(matches!(parse("f(1 2)"), Err(ParseError::UnexpectedToken(Token::Int(_)))));
    assert!(matches!(parse("while (a) b"), Err(ParseError::UnexpectedToken(Token::Ident(_)))));
}

#[test]
fn the_end_of_the_tokens_inside_a_construct_is_reported() {
    let run = |tokens: Vec<Token>| Parser::new(tokens).parse();
    assert!(matches!(run(vec![number("1"), Token::Plus]), Err(ParseError::RanOutOfTokens)));
    assert!(matches!(run(vec![Token::LParent, number("1")]), Err(ParseError::RanOutOfTokens)));
    assert!(matches!(run(vec![Token::Let]), Err(ParseError::RanOutOfTokens)));
    assert!(matches!(run(vec![Token::Let, name("x")]), Err(ParseError::RanOutOfTokens)));
    assert!(matches!(run(vec![Token::Return]), Err(ParseError::RanOutOfTokens)));
    assert!(matches!(run(vec![Token::Minus]), Err(ParseError::RanOutOfTokens)));
    assert!(matches!(run(vec![Token::If]), Err(ParseError::RanOutOfTokens)));
    assert!(matches!(
        run(vec![Token::If, Token::LParent, name("a"), Token::RParent, Token::LBrace]),
        Err(ParseError::RanOutOfTokens)
    ));
    assert!(matches!(run(vec![Token::Function, Token::LParent]), Err(ParseError::RanOutOfTokens)));
    assert!(matches!(run(vec![name("f"), Token::LParent]), Err(ParseError::RanOutOfTokens)));
    assert!(matches!(
        run(vec![name("f"), Token::LParent, name("a"), Token::Comma]),
        Err(ParseError::RanOutOfTokens)
    ));
}

#[test]
fn parse_errors_are_shown() {
    assert_eq!(ParseError::RanOutOfTokens.to_string(), "Ran out of tokens!");
    assert_eq!(
        ParseError::UnexpectedToken(Token::RBrace).to_string(),
        "Parser didnt expect token: }"
    );
    assert_eq!(
        ParseError::UnexpectedToken(name("abc")).to_string(),
        "Parser didnt expect token: abc"
    );
}

#[test]
fn the_cursor_moves_within_the_tokens() {
    let mut parser = Parser::new(vec![Token::Let, name("x")]);
    assert_eq!(parser.current_token(), Some(&Token::Let));
    assert_eq!(parser.peek_token(), Some(&name("x")));
    assert!(!parser.out_of_tokens());
    assert!(!parser.out_of_peek_tokens());
    assert!(parser.move_pointer_back().is_none());
    assert!(parser.move_pointer().is_some());
    assert_eq!(parser.pointer_position(), 1);
    assert_eq!(parser.current_token(), Some(&name("x")));
    assert_eq!(parser.peek_token(), None);
    assert!(parser.out_of_peek_tokens());
    assert!(parser.move_pointer().is_some());
    assert!(parser.out_of_tokens());
    assert_eq!(parser.current_token(), None);
    assert!(parser.move_pointer().is_none());
    assert_eq!(parser.pointer_position(), 2);
    assert!(parser.move_pointer_back().is_some());
    assert_eq!(parser.pointer_position(), 1);
    assert_eq!(parser.tokens().len(), 2);
}

#[test]
fn the_text_of_a_program_reads_back_to_the_same_program() {
    let sources = [
        "1 + 2 * 3 - 4 / 5 % 6",
        "-a * !b",
        "let f = fn(x, y){ if (x < y) { ret x; } else { ret y; } }; f(1, 2) + f(4, 3)",
        "let i = 0; while (i < 3) { let i = i + 1; }; i",
        "f(g(1), h(2, 3))(4)",
        "if (a == b || c) { \"yes\" } else { \"no\" }",
        "fn(){ }()",
        "true && false == !true",
    ];
    for source in sources {
        let once = text(source);
        let twice = text(&once);
        assert_eq!(once, twice, "{source}");
    }
}

#[test]
fn the_text_of_a_program_evaluates_to_what_the_program_evaluates_to() {
    let sources = [
        "1 + 2 * 3 - 4 / 5 % 6",
        "-3 * -(2 + 1)",
        "let f = fn(x, y){ if (x < y) { ret x; } else { ret y; } }; f(1, 2) + f(4, 3)",
        "let i = 0; while (i < 3) { let i = i + 1; }; i",
        "let make = fn(n){ fn(x){ ret x + n; } }; let addFive = make(5); addFive(10);",
        "if (1 == 2 || true) { \"yes\" } else { \"no\" }",
        "len(\"abc\") + int(\"4\")",
        "!(1 < 2) == false",
    ];
    for source in sources {
        assert_eq!(value(source), value(&text(source)), "{source}");
    }
}

#[test]
fn nodes_are_built_and_copied() {
    let sum = InfixExpression::new(
        Box::new(Expression::Integer(Integer::new("1".to_string()))),
        Token::Plus,
        Box::new(Expression::Prefix(PrefixExpression::new(
            Token::Minus,
            Box::new(Expression::Identifier(Identifier::new("x".to_string()))),
        ))),
    );
    assert_eq!(sum.to_string(), "(1 + (-x))");
    assert_eq!(sum.clone_as_expression().to_string(), "(1 + (-x))");
    let call = CallExpression::new(
        Box::new(Expression::Identifier(Identifier::new("f".to_string()))),
        vec![Expression::Infix(sum), Expression::Boolean(Boolean::new(true))],
    );
    assert_eq!(call.to_string(), "f((1 + (-x)),true)");
    let block = BlockStatement::new(vec![
        Statement::Let(LetStatement::new(
            Identifier::new("y".to_string()),
            Box::new(Expression::Call(call)),
        )),
        Statement::Return(ReturnStatement::new(Box::new(Expression::Identifier(
            Identifier::new("y".to_string()),
        )))),
        Statement::Expression(ExpressionStatement::new(
            Token::True,
            Box::new(Expression::Boolean(Boolean::new(false))),
        )),
    ]);
    assert_eq!(block.to_string(), "let y = f((1 + (-x)),true); ret y; false;");
    assert_eq!(block.clone_as_block_statement().to_string(), block.to_string());
    assert_eq!(block.statements().len(), 3);
    assert_eq!(block.clone_as_statement().to_string(), block.to_string());
}

#[test]
fn binding_powers_rise_along_the_ladder() {
    let ladder = [
        Precedences::Lowest,
        Precedences::OrAnd,
        Precedences::Equals,
        Precedences::LessGreater,
        Precedences::Sum,
        Precedences::Product,
        Precedences::Prefix,
        Precedences::Call,
        Precedences::Assign,
    ];
    for (rank, step) in ladder.iter().enumerate() {
        assert_eq!(step.level() as usize, rank);
    }
    assert_eq!(Token::Plus.precedence(), Precedences::Sum);
    assert_eq!(Token::Minus.precedence(), Precedences::Sum);
    assert_eq!(Token::Asterisk.precedence(), Precedences::Product);
    assert_eq!(Token::Slash.precedence(), Precedences::Product);
    assert_eq!(Token::Modular.precedence(), Precedences::Product);
    assert_eq!(Token::Or.precedence(), Precedences::OrAnd);
    assert_eq!(Token::And.precedence(), Precedences::OrAnd);
    assert_eq!(Token::Equal.precedence(), Precedences::Equals);
    assert_eq!(Token::NotEqual.precedence(), Precedences::Equals);
    assert_eq!(Token::Lt.precedence(), Precedences::LessGreater);
    assert_eq!(Token::Gte.precedence(), Precedences::LessGreater);
    assert_eq!(Token::Bang.precedence(), Precedences::Prefix);
    assert_eq!(Token::LParent.precedence(), Precedences::Call);
    assert_eq!(Token::Assign.precedence(), Precedences::Assign);
    assert_eq!(Token::Semicolon.precedence(), Precedences::Lowest);
    assert_eq!(Token::Eof.precedence(), Precedences::Lowest);
}
