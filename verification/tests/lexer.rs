use writing_an_interpreter_in_go::lexer::lexer::{char_class, symbol_token, CharClass, Lexer};
use writing_an_interpreter_in_go::lexer::token::Token;

fn test_string() -> String {
    "() {} = abc 123 + let 12 fn".to_string()
}

fn lex(source: &str) -> Vec<Token> {
    Lexer::new(source).generate_tokens()
}

#[test]
fn test_move_pointer() {
    let program = test_string();
    let mut lexer = Lexer::new(program.clone());

    assert_eq!(lexer.pointer_position(), &0);

    lexer.move_pointer();

    assert_eq!(lexer.pointer_position(), &1);

    lexer.move_pointer();
    lexer.move_pointer();

    assert_eq!(lexer.pointer_position(), &3);

    for _ in 0..program.len() {
        lexer.move_pointer();
    }

    assert!(lexer.move_pointer().is_none())
}

#[test]
fn test_show_char() {
    let program = test_string();
    let mut lexer = Lexer::new(program.clone());

    assert_eq!(lexer.current_char(), Some(&'('));

    lexer.move_pointer();

    assert_eq!(lexer.current_char(), Some(&')'));

    lexer.move_pointer();
    lexer.move_pointer();

    assert_eq!(lexer.current_char(), Some(&'{'));

    for _ in 0..program.len() {
        lexer.move_pointer();
    }

    assert!(lexer.current_char().is_none())
}

#[test]
fn test_next_token() {
    let program = test_string();
    let mut lexer = Lexer::new(program);

    let real_tokens = vec![
        Token::LParent,
        Token::RParent,
        Token::LBrace,
        Token::RBrace,
        Token::Assign,
        Token::Ident("abc".to_string()),
        Token::Int("123".to_string()),
        Token::Plus,
        Token::Let,
        Token::Int("12".to_string()),
        Token::Function,
    ];

    let mut generated_tokens = vec![];
    loop {
        let token = lexer.next_token();
        if token.is_none() {
            break;
        }
        generated_tokens.push(token.unwrap());
    }

    assert_eq!(real_tokens.len(), generated_tokens.len());

    for i in 0..real_tokens.len() {
        assert_eq!(real_tokens[i], generated_tokens[i])
    }
}

#[test]
fn test_generate_tokens() {
    let program = test_string();
    let mut lexer = Lexer::new(program);

    let real_tokens = vec![
        Token::LParent,
        Token::RParent,
        Token::LBrace,
        Token::RBrace,
        Token::Assign,
        Token::Ident("abc".to_string()),
        Token::Int("123".to_string()),
        Token::Plus,
        Token::Let,
        Token::Int("12".to_string()),
        Token::Function,
        Token::Eof,
    ];

    assert_eq!(real_tokens, lexer.generate_tokens())
}

#[test]
fn an_empty_text_gives_the_end_marker_alone() {
    assert_eq!(lex(""), vec![Token::Eof]);
    assert_eq!(lex(" \n\t\r "), vec![Token::Eof]);
}

#[test]
fn two_character_operators_are_one_token() {
    assert_eq!(
        lex("== != <= >= || &&"),
        vec![
            Token::Equal,
            Token::NotEqual,
            Token::Lte,
            Token::Gte,
            Token::Or,
            Token::And,
            Token::Eof,
        ]
    );
    assert_eq!(
        lex("= ! < > | &"),
        vec![
            Token::Assign,
            Token::Bang,
            Token::Lt,
            Token::Gt,
            Token::Illegal,
            Token::Illegal,
            Token::Eof,
        ]
    );
}

#[test]
fn adjacent_operators_split_by_the_longest_first() {
    assert_eq!(lex("==="), vec![Token::Equal, Token::Assign, Token::Eof]);
    assert_eq!(lex("!=="), vec![Token::NotEqual, Token::Assign, Token::Eof]);
    assert_eq!(lex("a<=b"), vec![
        Token::Ident("a".to_string()),
        Token::Lte,
        Token::Ident("b".to_string()),
        Token::Eof,
    ]);
}

#[test]
fn keywords_are_told_from_identifiers() {
    assert_eq!(
        lex("fn let true false if else ret err while"),
        vec![
            Token::Function,
            Token::Let,
            Token::True,
            Token::False,
            Token::If,
            Token::Else,
            Token::Return,
            Token::Error,
            Token::While,
            Token::Eof,
        ]
    );
    assert_eq!(
        lex("fnx lets _if"),
        vec![
            Token::Ident("fnx".to_string()),
            Token::Ident("lets".to_string()),
            Token::Ident("_if".to_string()),
            Token::Eof,
        ]
    );
}

#[test]
fn digits_end_an_identifier_and_letters_end_a_number() {
    assert_eq!(
        lex("abc1 12ab"),
        vec![
            Token::Ident("abc".to_string()),
            Token::Int("1".to_string()),
            Token::Int("12".to_string()),
            Token::Ident("ab".to_string()),
            Token::Eof,
        ]
    );
}

#[test]
fn a_string_literal_carries_the_text_between_its_quotes() {
    assert_eq!(
        lex("\"hello world\" 1"),
        vec![Token::String("hello world".to_string()), Token::Int("1".to_string()), Token::Eof]
    );
    assert_eq!(lex("\"\""), vec![Token::String(String::new()), Token::Eof]);
}

#[test]
fn an_unclosed_string_literal_runs_to_the_end() {
    assert_eq!(lex("\"abc"), vec![Token::String("abc".to_string()), Token::Eof]);
    assert_eq!(lex("\""), vec![Token::String(String::new()), Token::Eof]);
}

#[test]
fn other_characters_are_illegal_tokens() {
    assert_eq!(lex("@"), vec![Token::Illegal, Token::Eof]);
    assert_eq!(lex("é"), vec![Token::Illegal, Token::Eof]);
    assert_eq!(
        lex("a.b"),
        vec![
            Token::Ident("a".to_string()),
            Token::Illegal,
            Token::Ident("b".to_string()),
            Token::Eof,
        ]
    );
}

#[test]
fn brackets_and_separators_are_tokens() {
    assert_eq!(
        lex("[ ] , ; % * / -"),
        vec![
            Token::LBracket,
            Token::RBracket,
            Token::Comma,
            Token::Semicolon,
            Token::Modular,
            Token::Asterisk,
            Token::Slash,
            Token::Minus,
            Token::Eof,
        ]
    );
}

#[test]
fn the_class_of_a_character_follows_the_two_answers() {
    assert_eq!(char_class(Some(true), Some(false)), CharClass::Letter);
    assert_eq!(char_class(Some(true), Some(true)), CharClass::Letter);
    assert_eq!(char_class(Some(false), Some(true)), CharClass::Digit);
    assert_eq!(char_class(None, Some(true)), CharClass::Digit);
    assert_eq!(char_class(Some(false), Some(false)), CharClass::Other);
    assert_eq!(char_class(None, None), CharClass::Other);
    assert_eq!(char_class(Some(false), None), CharClass::Other);
}

#[test]
fn a_symbol_may_take_the_character_behind_it() {
    assert_eq!(symbol_token('=', Some('=')), Some((Token::Equal, true)));
    assert_eq!(symbol_token('=', Some('1')), Some((Token::Assign, false)));
    assert_eq!(symbol_token('=', None), Some((Token::Assign, false)));
    assert_eq!(symbol_token('|', Some('|')), Some((Token::Or, true)));
    assert_eq!(symbol_token('|', None), Some((Token::Illegal, false)));
    assert_eq!(symbol_token('a', Some('=')), None);
    assert_eq!(symbol_token('"', None), None);
}

#[test]
fn next_token_leaves_the_cursor_behind_the_token() {
    let mut lexer = Lexer::new("  let x");
    assert_eq!(lexer.next_token(), Some(Token::Let));
    assert_eq!(lexer.pointer_position(), &5);
    assert_eq!(lexer.next_token(), Some(Token::Ident("x".to_string())));
    assert_eq!(lexer.pointer_position(), &7);
    assert_eq!(lexer.next_token(), None);
    assert!(lexer.out_of_chars());
    assert_eq!(lexer.peek_char(), None);
    assert_eq!(lexer.chars().len(), 7);
}

#[test]
fn the_cursor_does_not_move_back_from_the_start() {
    let mut lexer = Lexer::new("ab");
    assert!(lexer.move_pointer_back().is_none());
    assert_eq!(lexer.pointer_position(), &0);
    assert!(lexer.move_pointer().is_some());
    assert_eq!(lexer.peek_char(), None);
    assert!(lexer.move_pointer_back().is_some());
    assert_eq!(lexer.peek_char(), Some(&'b'));
}

#[test]
fn tokens_are_shown_by_their_spelling_or_their_text() {
    assert_eq!(Token::Function.to_string(), "function");
    assert_eq!(Token::Eof.to_string(), "EOF");
    assert_eq!(Token::Illegal.to_string(), "Illegal");
    assert_eq!(Token::Return.to_string(), "ret");
    assert_eq!(Token::NotEqual.to_string(), "!=");
    assert_eq!(Token::Ident("abc".to_string()).to_string(), "abc");
    assert_eq!(Token::Int("12".to_string()).to_string(), "12");
    assert_eq!(Token::String("a b".to_string()).to_string(), "a b");
    assert_eq!(Token::Ident("x".to_string()).value(), "x");
}

#[test]
fn tokens_of_one_kind_are_variant_equal() {
    assert!(Token::variant_is_equal(
        &Token::Ident("a".to_string()),
        &Token::Ident(String::new())
    ));
    assert!(!Token::variant_is_equal(&Token::Ident("a".to_string()), &Token::Int("a".to_string())));
    assert!(Token::variant_is_equal(&Token::Plus, &Token::Plus));
    assert!(!Token::variant_is_equal(&Token::Plus, &Token::Minus));
}
