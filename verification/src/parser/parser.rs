//! The parser: a cursor over tokens, recursive descent for statements and
//! precedence climbing for expressions.

use crate::ast::expression::{
    expressions_view, names_view, Boolean, CallExpression, ExprView, Expression,
    FunctionExpression, Identifier, IfExpression, InfixExpression, Integer, PrefixExpression,
    StringExpression, WhileExpression,
};
use crate::ast::precedences::Precedences;
use crate::ast::statement::{
    statements_view, BlockStatement, ExpressionStatement, LetStatement, ReturnStatement,
    Statement, StmtView,
};
use crate::evaluate::environment::Environment;
use crate::lexer::token::{Token, TokenKind, TokenView};
use crate::parser::error::{ParseError, ParseErrorView};
use crate::parser::grammar;
use crate::parser::grammar::{is_binary_operator, is_kind, mismatch, token_at, Parsed};
use crate::parser::program::Program;
use vstd::prelude::*;

verus! {

/// A cursor over a token sequence, from which statements and expressions are read.
pub struct Parser {
    pub tokens: Vec<Token>,
    pub pointer_position: usize,
}

/// The views of a token sequence, in order.
pub open spec fn tokens_view(tokens: Seq<Token>) -> Seq<TokenView> {
    tokens.map_values(|token: Token| token@)
}

/// The mathematical form of the error of a step, if it failed.
pub open spec fn failure<T>(result: Result<T, ParseError>) -> Option<ParseErrorView> {
    match result {
        Ok(_) => None,
        Err(error) => Some(error@),
    }
}

/// Whether a step that gave `result` and left the parser at `after` agrees
/// with `parsed`, where `value` is the mathematical form of what it read.
pub open spec fn agrees<T, V>(
    result: Result<T, ParseError>,
    value: V,
    after: Parser,
    parsed: Parsed<V>,
) -> bool {
    &&& after.pointer_position as int == parsed.position
    &&& match result {
        Ok(_) => parsed.result == Ok::<V, ParseErrorView>(value),
        Err(error) => parsed.result == Err::<V, ParseErrorView>(error@),
    }
}

/// The mathematical form of an expression that was read, if one was.
pub open spec fn expression_read(result: Result<Expression, ParseError>) -> ExprView {
    match result {
        Ok(expression) => expression@,
        Err(_) => arbitrary(),
    }
}

/// The mathematical form of a statement that was read, if one was.
pub open spec fn statement_read(result: Result<Statement, ParseError>) -> StmtView {
    match result {
        Ok(statement) => statement@,
        Err(_) => arbitrary(),
    }
}

/// The mathematical form of a block that was read, if one was.
pub open spec fn block_read(result: Result<BlockStatement, ParseError>) -> Seq<StmtView> {
    match result {
        Ok(block) => block@,
        Err(_) => arbitrary(),
    }
}

/// The mathematical form of a program that was read, if one was.
pub open spec fn program_read(result: Result<Program, ParseError>) -> Seq<StmtView> {
    match result {
        Ok(program) => program@,
        Err(_) => arbitrary(),
    }
}

/// The mathematical form of an identifier that was read, if one was.
pub open spec fn name_read(result: Result<Identifier, ParseError>) -> Seq<char> {
    match result {
        Ok(identifier) => identifier@,
        Err(_) => arbitrary(),
    }
}

/// The mathematical form of a parameter list that was read, if one was.
pub open spec fn names_read(result: Result<Vec<Identifier>, ParseError>) -> Seq<Seq<char>> {
    match result {
        Ok(names) => names_view(names@),
        Err(_) => arbitrary(),
    }
}

/// The mathematical form of an argument list that was read, if one was.
pub open spec fn arguments_read(result: Result<Vec<Expression>, ParseError>) -> Seq<ExprView> {
    match result {
        Ok(list) => expressions_view(&list),
        Err(_) => arbitrary(),
    }
}

impl Parser {
    /// The tokens, in their mathematical form.
    pub open spec fn view(&self) -> Seq<TokenView> {
        tokens_view(self.tokens@)
    }

    /// The position of the cursor.
    pub open spec fn position(&self) -> int {
        self.pointer_position as int
    }

    /// Whether the cursor of `self` stands behind that of `before`, over the
    /// same tokens and not behind their end.
    pub open spec fn advanced_from(&self, before: &Parser) -> bool {
        &&& self.tokens == before.tokens
        &&& before.pointer_position < self.pointer_position <= self.tokens.len()
    }

    /// Whether `self` has the tokens of `before` and a cursor that did not move back.
    pub open spec fn follows(&self, before: &Parser) -> bool {
        &&& self.tokens == before.tokens
        &&& before.pointer_position <= self.pointer_position
    }

    /// A parser at the start of `tokens`.
    pub fn new(tokens: Vec<Token>) -> (parser: Self)
        ensures
            parser.tokens == tokens,
            parser.pointer_position == 0,
    {
        Self { tokens, pointer_position: 0 }
    }

    /// The token under the cursor.
    pub fn current_token(&self) -> (token: Option<&Token>)
        ensures
            match token {
                Some(found) => token_at(self@, self.position()) == Some(found@)
                    && self.pointer_position < self.tokens.len()
                    && *found == self.tokens[self.position()],
                None => token_at(self@, self.position()) is None,
            },
    {
        if self.pointer_position < self.tokens.len() {
            Some(&self.tokens[self.pointer_position])
        } else {
            None
        }
    }

    /// The token behind the one under the cursor.
    pub fn peek_token(&self) -> (token: Option<&Token>)
        ensures
            match token {
                Some(found) => token_at(self@, self.position() + 1) == Some(found@),
                None => token_at(self@, self.position() + 1) is None,
            },
    {
        if self.out_of_peek_tokens() {
            None
        } else {
            Some(&self.tokens[self.pointer_position + 1])
        }
    }

    /// Whether the cursor stands behind the last token.
    pub fn out_of_tokens(&self) -> (out: bool)
        ensures
            out == (self.pointer_position >= self.tokens.len()),
            out == (token_at(self@, self.position()) is None),
    {
        self.pointer_position >= self.tokens.len()
    }

    /// Whether no token stands behind the one under the cursor.
    pub fn out_of_peek_tokens(&self) -> (out: bool)
        ensures
            out == (self.pointer_position + 1 >= self.tokens.len()),
            out == (token_at(self@, self.position() + 1) is None),
    {
        self.pointer_position >= self.tokens.len() || self.pointer_position + 1
            >= self.tokens.len()
    }

    /// Moves the cursor one token on, unless it stands behind the last token.
    pub fn move_pointer(&mut self) -> (moved: Option<()>)
        ensures
            final(self).tokens == old(self).tokens,
            old(self).pointer_position < old(self).tokens.len() ==> moved is Some && final(self).pointer_position == old(self).pointer_position + 1,
            old(self).pointer_position >= old(self).tokens.len() ==> moved is None && final(self).pointer_position == old(self).pointer_position,
    {
        if self.out_of_tokens() {
            return None;
        }
        self.pointer_position += 1;
        Some(())
    }

    /// Moves the cursor one token back, unless it stands on the first token.
    pub fn move_pointer_back(&mut self) -> (moved: Option<()>)
        ensures
            final(self).tokens == old(self).tokens,
            old(self).pointer_position > 0 ==> moved is Some && final(self).pointer_position
                == old(self).pointer_position - 1,
            old(self).pointer_position == 0 ==> moved is None && final(self).pointer_position
                == 0,
    {
        if self.pointer_position == 0 {
            return None;
        }
        self.pointer_position -= 1;
        Some(())
    }

    /// All tokens.
    pub fn tokens(&self) -> (tokens: &Vec<Token>)
        ensures
            tokens == &self.tokens,
    {
        &self.tokens
    }

    /// The position of the cursor.
    pub fn pointer_position(&self) -> (position: usize)
        ensures
            position == self.pointer_position,
    {
        self.pointer_position
    }

    /// Whether the token under the cursor is of kind `kind`.
    fn current_is(&self, kind: TokenKind) -> (same: bool)
        ensures
            same == is_kind(self@, self.position(), kind),
    {
        match self.current_token() {
            Some(token) => token.kind() == kind,
            None => false,
        }
    }

    /// Asks for a token of the kind of `token` under the cursor.
    fn assert_current_token(&self, token: &Token) -> (result: Result<(), ParseError>)
        ensures
            failure(result) == mismatch(self@, self.position(), token@.kind),
    {
        match self.current_token() {
            None => Err(ParseError::RanOutOfTokens),
            Some(current) => if Token::variant_is_equal(current, token) {
                Ok(())
            } else {
                Err(ParseError::UnexpectedToken(current.clone()))
            },
        }
    }

    /// Asks for a token of the kind of `token` behind the one under the
    /// cursor; the token reported is the one under the cursor.
    fn assert_next_token(&self, token: &Token) -> (result: Result<(), ParseError>)
        ensures
            match token_at(self@, self.position() + 1) {
                None => failure(result) == Some(ParseErrorView::RanOutOfTokens),
                Some(next) => if next.kind == token@.kind {
                    result is Ok
                } else {
                    failure(result) == Some(
                        ParseErrorView::UnexpectedToken(self@[self.position()]),
                    )
                },
            },
    {
        match self.peek_token() {
            None => Err(ParseError::RanOutOfTokens),
            Some(next) => if Token::variant_is_equal(next, token) {
                Ok(())
            } else {
                Err(ParseError::UnexpectedToken(self.tokens[self.pointer_position].clone()))
            },
        }
    }

    /// The binding power of the token behind the one under the cursor.
    fn peek_precedence(&self) -> (result: Result<Precedences, ParseError>)
        ensures
            match token_at(self@, self.position() + 1) {
                None => failure(result) == Some(ParseErrorView::RanOutOfTokens),
                Some(next) => result matches Ok(found) && found == next.kind.precedence(),
            },
    {
        match self.peek_token() {
            None => Err(ParseError::RanOutOfTokens),
            Some(next) => Ok(next.precedence()),
        }
    }

    /// The binding power of the token under the cursor.
    fn current_precedence(&self) -> (result: Result<Precedences, ParseError>)
        ensures
            match token_at(self@, self.position()) {
                None => failure(result) == Some(ParseErrorView::RanOutOfTokens),
                Some(current) => result matches Ok(found) && found == current.kind.precedence(),
            },
    {
        match self.current_token() {
            None => Err(ParseError::RanOutOfTokens),
            Some(current) => Ok(current.precedence()),
        }
    }

    /// Reads an identifier.
    fn parse_identifier(&mut self) -> (result: Result<Identifier, ParseError>)
        ensures
            final(self).follows(old(self)),
            result is Ok ==> final(self).advanced_from(old(self)),
            agrees(
                result,
                name_read(result),
                *final(self),
                grammar::parse_identifier(old(self)@, old(self).position()),
            ),
    {
        match self.assert_current_token(&Token::Ident(String::new())) {
            Err(error) => Err(error),
            Ok(_) => {
                let identifier = Identifier::new(self.tokens[self.pointer_position].value());
                self.move_pointer();
                Ok(identifier)
            },
        }
    }

    /// Reads an integer literal.
    fn parse_integer(&mut self) -> (result: Result<Integer, ParseError>)
        ensures
            final(self).follows(old(self)),
            result is Ok ==> final(self).advanced_from(old(self)),
            final(self).position() == grammar::parse_integer(
                old(self)@,
                old(self).position(),
            ).position,
            match result {
                Ok(literal) => grammar::parse_integer(old(self)@, old(self).position()).result
                    == Ok::<ExprView, ParseErrorView>(literal@),
                Err(error) => grammar::parse_integer(old(self)@, old(self).position()).result
                    == Err::<ExprView, ParseErrorView>(error@),
            },
    {
        match self.assert_current_token(&Token::Int(String::new())) {
            Err(error) => Err(error),
            Ok(_) => {
                let literal = Integer::new(self.tokens[self.pointer_position].value());
                self.move_pointer();
                Ok(literal)
            },
        }
    }

    /// Reads a string literal.
    fn parse_string(&mut self) -> (result: Result<StringExpression, ParseError>)
        ensures
            final(self).follows(old(self)),
            result is Ok ==> final(self).advanced_from(old(self)),
            final(self).position() == grammar::parse_string(
                old(self)@,
                old(self).position(),
            ).position,
            match result {
                Ok(literal) => grammar::parse_string(old(self)@, old(self).position()).result
                    == Ok::<ExprView, ParseErrorView>(literal@),
                Err(error) => grammar::parse_string(old(self)@, old(self).position()).result
                    == Err::<ExprView, ParseErrorView>(error@),
            },
    {
        match self.assert_current_token(&Token::String(String::new())) {
            Err(error) => Err(error),
            Ok(_) => {
                let literal = StringExpression::new(self.tokens[self.pointer_position].value());
                self.move_pointer();
                Ok(literal)
            },
        }
    }
}

} // verus!

verus! {

impl Parser {
    /// Reads a parameter list: identifiers between parentheses, separated by commas.
    fn parse_parameters(&mut self) -> (result: Result<Vec<Identifier>, ParseError>)
        ensures
            final(self).follows(old(self)),
            result is Ok ==> final(self).advanced_from(old(self)),
            agrees(
                result,
                names_read(result),
                *final(self),
                grammar::parse_parameters(old(self)@, old(self).position()),
            ),
    {
        match self.assert_current_token(&Token::LParent) {
            Err(error) => {
                return Err(error);
            },
            Ok(_) => {},
        }
        self.move_pointer();
        let mut identifiers: Vec<Identifier> = Vec::new();
        if self.current_is(TokenKind::RParent) {
            self.move_pointer();
            assert(names_view(identifiers@) =~= Seq::empty());
            return Ok(identifiers);
        }
        match self.parse_identifier() {
            Ok(identifier) => {
                assert(names_view(identifiers@.push(identifier)) =~= seq![identifier@]);
                identifiers.push(identifier);
            },
            Err(error) => {
                return Err(error);
            },
        }
        loop
            invariant
                self.advanced_from(old(self)),
                grammar::parse_more_parameters(self@, self.position(), names_view(identifiers@))
                    == grammar::parse_parameters(old(self)@, old(self).position()),
            decreases self.tokens.len() - self.pointer_position,
        {
            if self.current_is(TokenKind::Comma) {
                self.move_pointer();
                if self.current_is(TokenKind::RParent) {
                    self.move_pointer();
                    return Ok(identifiers);
                }
                match self.parse_identifier() {
                    Ok(identifier) => {
                        assert(names_view(identifiers@.push(identifier)) =~= names_view(
                            identifiers@,
                        ).push(identifier@));
                        identifiers.push(identifier);
                    },
                    Err(error) => {
                        return Err(error);
                    },
                }
            } else {
                match self.assert_current_token(&Token::RParent) {
                    Err(error) => {
                        return Err(error);
                    },
                    Ok(_) => {
                        self.move_pointer();
                        return Ok(identifiers);
                    },
                }
            }
        }
    }

    /// Reads an expression that binds tighter than `precedence`.
    fn parse_expression(&mut self, precedence: u8) -> (result: Result<Expression, ParseError>)
        ensures
            final(self).follows(old(self)),
            result is Ok ==> final(self).advanced_from(old(self)),
            agrees(
                result,
                expression_read(result),
                *final(self),
                grammar::parse_expression(old(self)@, old(self).position(), precedence as nat),
            ),
        decreases old(self).tokens.len() - old(self).pointer_position, 2nat,
    {
        let mut left = match self.parse_operand() {
            Ok(operand) => operand,
            Err(error) => {
                return Err(error);
            },
        };
        loop
            invariant
                self.advanced_from(old(self)),
                grammar::parse_operations(self@, self.position(), left@, precedence as nat)
                    == grammar::parse_expression(
                    old(self)@,
                    old(self).position(),
                    precedence as nat,
                ),
            decreases self.tokens.len() - self.pointer_position,
        {
            let (kind, level) = match self.current_token() {
                Some(token) => (token.kind(), token.precedence().level()),
                None => {
                    return Ok(left);
                },
            };
            if precedence >= level {
                return Ok(left);
            }
            match kind {
                TokenKind::Plus
                | TokenKind::Minus
                | TokenKind::Asterisk
                | TokenKind::Slash
                | TokenKind::Modular
                | TokenKind::Equal
                | TokenKind::NotEqual
                | TokenKind::Lt
                | TokenKind::Gt
                | TokenKind::Lte
                | TokenKind::Gte
                | TokenKind::Or
                | TokenKind::And => {
                    left = match self.parse_infix_expression(left) {
                        Ok(operation) => operation,
                        Err(error) => {
                            return Err(error);
                        },
                    };
                },
                TokenKind::LParent => {
                    left = match self.parse_call_expression(left) {
                        Ok(call) => call,
                        Err(error) => {
                            return Err(error);
                        },
                    };
                },
                _ => {
                    return Ok(left);
                },
            }
        }
    }

    /// Reads an operand: what the token under the cursor begins.
    fn parse_operand(&mut self) -> (result: Result<Expression, ParseError>)
        ensures
            final(self).follows(old(self)),
            result is Ok ==> final(self).advanced_from(old(self)),
            agrees(
                result,
                expression_read(result),
                *final(self),
                grammar::parse_operand(old(self)@, old(self).position()),
            ),
        decreases old(self).tokens.len() - old(self).pointer_position, 1nat,
    {
        let kind = match self.current_token() {
            Some(token) => token.kind(),
            None => {
                return Err(ParseError::RanOutOfTokens);
            },
        };
        match kind {
            TokenKind::Ident => match self.parse_identifier() {
                Ok(identifier) => Ok(Expression::Identifier(identifier)),
                Err(error) => Err(error),
            },
            TokenKind::Int => match self.parse_integer() {
                Ok(literal) => Ok(Expression::Integer(literal)),
                Err(error) => Err(error),
            },
            TokenKind::String => match self.parse_string() {
                Ok(literal) => Ok(Expression::String(literal)),
                Err(error) => Err(error),
            },
            TokenKind::True => {
                self.move_pointer();
                Ok(Expression::Boolean(Boolean::new(true)))
            },
            TokenKind::False => {
                self.move_pointer();
                Ok(Expression::Boolean(Boolean::new(false)))
            },
            TokenKind::Minus | TokenKind::Bang => self.parse_prefix_expression(),
            TokenKind::LParent => self.parse_grouped_expression(),
            TokenKind::If => self.parse_if_statement_expression(),
            TokenKind::Function => self.parse_function_expression(),
            TokenKind::While => self.parse_while_expression(),
            _ => Err(ParseError::UnexpectedToken(self.tokens[self.pointer_position].clone())),
        }
    }

    /// Reads a call of `function`, whose arguments begin under the cursor.
    fn parse_call_expression(&mut self, function: Expression) -> (result: Result<
        Expression,
        ParseError,
    >)
        ensures
            final(self).follows(old(self)),
            result is Ok ==> final(self).advanced_from(old(self)),
            final(self).position() == grammar::parse_call_arguments(
                old(self)@,
                old(self).position(),
            ).position,
            match result {
                Ok(call) => grammar::parse_call_arguments(old(self)@, old(self).position()).result
                    matches Ok(list) && call@ == (ExprView::Call {
                    function: Box::new(function@),
                    arguments: list,
                }),
                Err(error) => grammar::parse_call_arguments(
                    old(self)@,
                    old(self).position(),
                ).result == Err::<Seq<ExprView>, ParseErrorView>(error@),
            },
        decreases old(self).tokens.len() - old(self).pointer_position, 1nat,
    {
        match self.parse_call_arguments() {
            Ok(arguments) => Ok(
                Expression::Call(CallExpression::new(Box::new(function), arguments)),
            ),
            Err(error) => Err(error),
        }
    }

    /// Reads the arguments of a call: expressions between parentheses,
    /// separated by commas.
    fn parse_call_arguments(&mut self) -> (result: Result<Vec<Expression>, ParseError>)
        ensures
            final(self).follows(old(self)),
            result is Ok ==> final(self).advanced_from(old(self)),
            agrees(
                result,
                arguments_read(result),
                *final(self),
                grammar::parse_call_arguments(old(self)@, old(self).position()),
            ),
        decreases old(self).tokens.len() - old(self).pointer_position, 0nat,
    {
        match self.assert_current_token(&Token::LParent) {
            Err(error) => {
                return Err(error);
            },
            Ok(_) => {},
        }
        self.move_pointer();
        let mut expressions: Vec<Expression> = Vec::new();
        if self.current_is(TokenKind::RParent) {
            self.move_pointer();
            assert(expressions_view(&expressions) =~= Seq::empty());
            return Ok(expressions);
        }
        match self.parse_expression(Precedences::Lowest.level()) {
            Ok(expression) => {
                let ghost read = expression@;
                expressions.push(expression);
                assert(expressions_view(&expressions) =~= seq![read]);
            },
            Err(error) => {
                return Err(error);
            },
        }
        loop
            invariant
                self.advanced_from(old(self)),
                grammar::parse_more_arguments(self@, self.position(), expressions_view(&expressions))
                    == grammar::parse_call_arguments(old(self)@, old(self).position()),
            decreases self.tokens.len() - self.pointer_position,
        {
            if self.current_is(TokenKind::Comma) {
                self.move_pointer();
                if self.current_is(TokenKind::RParent) {
                    self.move_pointer();
                    return Ok(expressions);
                }
                match self.parse_expression(Precedences::Lowest.level()) {
                    Ok(expression) => {
                        let ghost read = expression@;
                        let ghost before = expressions_view(&expressions);
                        expressions.push(expression);
                        assert(expressions_view(&expressions) =~= before.push(read));
                    },
                    Err(error) => {
                        return Err(error);
                    },
                }
            } else {
                match self.assert_current_token(&Token::RParent) {
                    Err(error) => {
                        return Err(error);
                    },
                    Ok(_) => {
                        self.move_pointer();
                        return Ok(expressions);
                    },
                }
            }
        }
    }

    /// Reads an expression between parentheses.
    fn parse_grouped_expression(&mut self) -> (result: Result<Expression, ParseError>)
        ensures
            final(self).follows(old(self)),
            result is Ok ==> final(self).advanced_from(old(self)),
            agrees(
                result,
                expression_read(result),
                *final(self),
                grammar::parse_grouped_expression(old(self)@, old(self).position()),
            ),
        decreases old(self).tokens.len() - old(self).pointer_position, 0nat,
    {
        if self.out_of_tokens() {
            return Err(ParseError::RanOutOfTokens);
        }
        self.move_pointer();
        let expression = match self.parse_expression(Precedences::Lowest.level()) {
            Ok(expression) => expression,
            Err(error) => {
                return Err(error);
            },
        };
        match self.assert_current_token(&Token::RParent) {
            Err(error) => Err(error),
            Ok(_) => {
                self.move_pointer();
                Ok(expression)
            },
        }
    }

    /// Reads a binary operation whose left operand is `left` and whose
    /// operator stands under the cursor.
    fn parse_infix_expression(&mut self, left: Expression) -> (result: Result<
        Expression,
        ParseError,
    >)
        requires
            old(self).pointer_position < old(self).tokens.len(),
        ensures
            final(self).follows(old(self)),
            result is Ok ==> final(self).advanced_from(old(self)),
            ({
                let operator = old(self)@[old(self).position()];
                let right = grammar::parse_expression(
                    old(self)@,
                    old(self).position() + 1,
                    operator.kind.precedence().rank(),
                );
                &&& final(self).position() == right.position
                &&& match result {
                    Ok(operation) => right.result matches Ok(operand) && operation@ == (
                    ExprView::Infix {
                        left: Box::new(left@),
                        operator,
                        right: Box::new(operand),
                    }),
                    Err(error) => right.result == Err::<ExprView, ParseErrorView>(error@),
                }
            }),
        decreases old(self).tokens.len() - old(self).pointer_position, 1nat,
    {
        let token = self.tokens[self.pointer_position].clone();
        let precedence = token.precedence().level();
        self.move_pointer();
        match self.parse_expression(precedence) {
            Ok(right) => Ok(
                Expression::Infix(InfixExpression::new(Box::new(left), token, Box::new(right))),
            ),
            Err(error) => Err(error),
        }
    }

    /// Reads a unary operation, whose operator stands under the cursor.
    fn parse_prefix_expression(&mut self) -> (result: Result<Expression, ParseError>)
        ensures
            final(self).follows(old(self)),
            result is Ok ==> final(self).advanced_from(old(self)),
            agrees(
                result,
                expression_read(result),
                *final(self),
                grammar::parse_prefix_expression(old(self)@, old(self).position()),
            ),
        decreases old(self).tokens.len() - old(self).pointer_position, 0nat,
    {
        if self.out_of_tokens() {
            return Err(ParseError::RanOutOfTokens);
        }
        let prefix = self.tokens[self.pointer_position].clone();
        self.move_pointer();
        match self.parse_expression(Precedences::Prefix.level()) {
            Ok(expression) => Ok(
                Expression::Prefix(PrefixExpression::new(prefix, Box::new(expression))),
            ),
            Err(error) => Err(error),
        }
    }

    /// Reads a condition between parentheses.
    fn parse_condition(&mut self) -> (result: Result<Expression, ParseError>)
        ensures
            final(self).follows(old(self)),
            result is Ok ==> final(self).advanced_from(old(self)),
            agrees(
                result,
                expression_read(result),
                *final(self),
                grammar::parse_condition(old(self)@, old(self).position()),
            ),
        decreases old(self).tokens.len() - old(self).pointer_position, 0nat,
    {
        match self.assert_current_token(&Token::LParent) {
            Err(error) => {
                return Err(error);
            },
            Ok(_) => {},
        }
        self.move_pointer();
        let condition = match self.parse_expression(Precedences::Lowest.level()) {
            Ok(expression) => expression,
            Err(error) => {
                return Err(error);
            },
        };
        match self.assert_current_token(&Token::RParent) {
            Err(error) => Err(error),
            Ok(_) => {
                self.move_pointer();
                Ok(condition)
            },
        }
    }

    /// Reads a conditional, whose `if` stands under the cursor.
    fn parse_if_statement_expression(&mut self) -> (result: Result<Expression, ParseError>)
        ensures
            final(self).follows(old(self)),
            result is Ok ==> final(self).advanced_from(old(self)),
            agrees(
                result,
                expression_read(result),
                *final(self),
                grammar::parse_if_expression(old(self)@, old(self).position()),
            ),
        decreases old(self).tokens.len() - old(self).pointer_position, 0nat,
    {
        if self.out_of_tokens() {
            return Err(ParseError::RanOutOfTokens);
        }
        self.move_pointer();
        let condition = match self.parse_condition() {
            Ok(expression) => expression,
            Err(error) => {
                return Err(error);
            },
        };
        let consequence = match self.parse_block_statement() {
            Ok(block) => block,
            Err(error) => {
                return Err(error);
            },
        };
        if !self.current_is(TokenKind::Else) {
            return Ok(Expression::If(IfExpression::new(Box::new(condition), consequence, None)));
        }
        self.move_pointer();
        let alternative = match self.parse_block_statement() {
            Ok(block) => block,
            Err(error) => {
                return Err(error);
            },
        };
        Ok(Expression::If(IfExpression::new(Box::new(condition), consequence, Some(alternative))))
    }

    /// Reads a loop, whose `while` stands under the cursor.
    fn parse_while_expression(&mut self) -> (result: Result<Expression, ParseError>)
        ensures
            final(self).follows(old(self)),
            result is Ok ==> final(self).advanced_from(old(self)),
            agrees(
                result,
                expression_read(result),
                *final(self),
                grammar::parse_while_expression(old(self)@, old(self).position()),
            ),
        decreases old(self).tokens.len() - old(self).pointer_position, 0nat,
    {
        if self.out_of_tokens() {
            return Err(ParseError::RanOutOfTokens);
        }
        self.move_pointer();
        let condition = match self.parse_condition() {
            Ok(expression) => expression,
            Err(error) => {
                return Err(error);
            },
        };
        match self.parse_block_statement() {
            Ok(block) => Ok(Expression::While(WhileExpression::new(Box::new(condition), block))),
            Err(error) => Err(error),
        }
    }

    /// Reads a function literal, whose `fn` stands under the cursor. The
    /// environment slot of the literal is empty.
    fn parse_function_expression(&mut self) -> (result: Result<Expression, ParseError>)
        ensures
            final(self).follows(old(self)),
            result is Ok ==> final(self).advanced_from(old(self)),
            agrees(
                result,
                expression_read(result),
                *final(self),
                grammar::parse_function_expression(old(self)@, old(self).position()),
            ),
        decreases old(self).tokens.len() - old(self).pointer_position, 0nat,
    {
        if self.out_of_tokens() {
            return Err(ParseError::RanOutOfTokens);
        }
        self.move_pointer();
        let parameters = match self.parse_parameters() {
            Ok(names) => names,
            Err(error) => {
                return Err(error);
            },
        };
        match self.parse_block_statement() {
            Ok(body) => Ok(
                Expression::Function(FunctionExpression::new(parameters, body, Environment::new())),
            ),
            Err(error) => Err(error),
        }
    }

    /// Reads a block: statements between braces.
    fn parse_block_statement(&mut self) -> (result: Result<BlockStatement, ParseError>)
        ensures
            final(self).follows(old(self)),
            result is Ok ==> final(self).advanced_from(old(self)),
            agrees(
                result,
                block_read(result),
                *final(self),
                grammar::parse_block_statement(old(self)@, old(self).position()),
            ),
        decreases old(self).tokens.len() - old(self).pointer_position, 1nat,
    {
        match self.assert_current_token(&Token::LBrace) {
            Err(error) => {
                return Err(error);
            },
            Ok(_) => {},
        }
        self.move_pointer();
        let mut consequences: Vec<Statement> = Vec::new();
        assert(statements_view(&consequences) =~= Seq::empty());
        loop
            invariant
                self.advanced_from(old(self)),
                grammar::parse_block_rest(self@, self.position(), statements_view(&consequences))
                    == grammar::parse_block_statement(old(self)@, old(self).position()),
            decreases self.tokens.len() - self.pointer_position,
        {
            if self.out_of_tokens() {
                return Err(ParseError::RanOutOfTokens);
            }
            if self.current_is(TokenKind::RBrace) {
                self.move_pointer();
                return Ok(BlockStatement::new(consequences));
            }
            match self.parse_statement() {
                Ok(statement) => {
                    let ghost read = statement@;
                    let ghost before = statements_view(&consequences);
                    consequences.push(statement);
                    assert(statements_view(&consequences) =~= before.push(read));
                },
                Err(error) => {
                    return Err(error);
                },
            }
        }
    }

    /// Reads a statement.
    fn parse_statement(&mut self) -> (result: Result<Statement, ParseError>)
        ensures
            final(self).follows(old(self)),
            result is Ok ==> final(self).advanced_from(old(self)),
            agrees(
                result,
                statement_read(result),
                *final(self),
                grammar::parse_statement(old(self)@, old(self).position()),
            ),
        decreases old(self).tokens.len() - old(self).pointer_position, 4nat,
    {
        if self.current_is(TokenKind::Let) {
            self.parse_let_statement()
        } else if self.current_is(TokenKind::Return) {
            self.parse_return_statement()
        } else {
            self.parse_expression_statement()
        }
    }

    /// Reads an expression, and the semicolon behind it if there is one.
    fn parse_expression_statement(&mut self) -> (result: Result<Statement, ParseError>)
        ensures
            final(self).follows(old(self)),
            result is Ok ==> final(self).advanced_from(old(self)),
            agrees(
                result,
                statement_read(result),
                *final(self),
                grammar::parse_expression_statement(old(self)@, old(self).position()),
            ),
        decreases old(self).tokens.len() - old(self).pointer_position, 3nat,
    {
        let token = match self.current_token() {
            Some(token) => token.clone(),
            None => {
                return Err(ParseError::RanOutOfTokens);
            },
        };
        let expression = match self.parse_expression(Precedences::Lowest.level()) {
            Ok(expression) => expression,
            Err(error) => {
                return Err(error);
            },
        };
        if self.current_is(TokenKind::Semicolon) {
            self.move_pointer();
        }
        Ok(Statement::Expression(ExpressionStatement::new(token, Box::new(expression))))
    }

    /// Reads `let`, an identifier, `=`, an expression, and a semicolon.
    fn parse_let_statement(&mut self) -> (result: Result<Statement, ParseError>)
        ensures
            final(self).follows(old(self)),
            result is Ok ==> final(self).advanced_from(old(self)),
            agrees(
                result,
                statement_read(result),
                *final(self),
                grammar::parse_let_statement(old(self)@, old(self).position()),
            ),
        decreases old(self).tokens.len() - old(self).pointer_position, 3nat,
    {
        if self.out_of_tokens() {
            return Err(ParseError::RanOutOfTokens);
        }
        self.move_pointer();
        let identifier = match self.parse_identifier() {
            Ok(identifier) => identifier,
            Err(error) => {
                return Err(error);
            },
        };
        match self.assert_current_token(&Token::Assign) {
            Err(error) => {
                return Err(error);
            },
            Ok(_) => {},
        }
        self.move_pointer();
        let expression = match self.parse_expression(Precedences::Lowest.level()) {
            Ok(expression) => expression,
            Err(error) => {
                return Err(error);
            },
        };
        match self.assert_current_token(&Token::Semicolon) {
            Err(error) => {
                return Err(error);
            },
            Ok(_) => {},
        }
        self.move_pointer();
        Ok(Statement::Let(LetStatement::new(identifier, Box::new(expression))))
    }

    /// Reads `ret`, an expression, and a semicolon.
    fn parse_return_statement(&mut self) -> (result: Result<Statement, ParseError>)
        ensures
            final(self).follows(old(self)),
            result is Ok ==> final(self).advanced_from(old(self)),
            agrees(
                result,
                statement_read(result),
                *final(self),
                grammar::parse_return_statement(old(self)@, old(self).position()),
            ),
        decreases old(self).tokens.len() - old(self).pointer_position, 3nat,
    {
        if self.out_of_tokens() {
            return Err(ParseError::RanOutOfTokens);
        }
        self.move_pointer();
        let expression = match self.parse_expression(Precedences::Lowest.level()) {
            Ok(expression) => expression,
            Err(error) => {
                return Err(error);
            },
        };
        match self.assert_current_token(&Token::Semicolon) {
            Err(error) => {
                return Err(error);
            },
            Ok(_) => {},
        }
        self.move_pointer();
        Ok(Statement::Return(ReturnStatement::new(Box::new(expression))))
    }

    /// Reads a program from the cursor on: statements up to the end marker
    /// or the end of the tokens. The first mismatch ends the parsing.
    pub fn parse(&mut self) -> (result: Result<Program, ParseError>)
        ensures
            final(self).follows(old(self)),
            agrees(
                result,
                program_read(result),
                *final(self),
                grammar::parse_program(old(self)@, old(self).position(), Seq::empty()),
            ),
    {
        let mut program = Program::new();
        loop
            invariant
                self.follows(old(self)),
                grammar::parse_program(self@, self.position(), program@) == grammar::parse_program(
                    old(self)@,
                    old(self).position(),
                    Seq::empty(),
                ),
            decreases self.tokens.len() - self.pointer_position,
        {
            if self.out_of_tokens() || self.current_is(TokenKind::Eof) {
                return Ok(program);
            }
            match self.parse_statement() {
                Ok(statement) => {
                    program.add_statement(statement);
                },
                Err(error) => {
                    return Err(error);
                },
            }
        }
    }
}

} // verus!
