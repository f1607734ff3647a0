//! The grammar as a function from a token sequence and a position to what
//! is read there: the model that the parser is proved against.

use crate::ast::expression::ExprView;
use crate::ast::precedences::Precedences;
use crate::ast::statement::StmtView;
use crate::lexer::token::{TokenKind, TokenView};
use crate::parser::error::ParseErrorView;
use vstd::prelude::*;

verus! {

/// What a parsing step gives: a result, and the position in the token
/// sequence where the step ended: behind what it read, or at the token that
/// it refused.
pub struct Parsed<T> {
    pub result: Result<T, ParseErrorView>,
    pub position: int,
}

/// A step that read `value` and ended at `position`.
pub open spec fn read<T>(value: T, position: int) -> Parsed<T> {
    Parsed { result: Ok(value), position }
}

/// A step that failed with `error` at `position`.
pub open spec fn refused<T>(error: ParseErrorView, position: int) -> Parsed<T> {
    Parsed { result: Err(error), position }
}

/// The token at `pos`, if there is one.
pub open spec fn token_at(tokens: Seq<TokenView>, pos: int) -> Option<TokenView> {
    if 0 <= pos < tokens.len() {
        Some(tokens[pos])
    } else {
        None
    }
}

/// Whether there is a token of kind `kind` at `pos`.
pub open spec fn is_kind(tokens: Seq<TokenView>, pos: int, kind: TokenKind) -> bool {
    0 <= pos < tokens.len() && tokens[pos].kind == kind
}

/// The error of asking for a token of kind `kind` at `pos`, if there is none:
/// the tokens have run out, or the token there is of another kind.
pub open spec fn mismatch(tokens: Seq<TokenView>, pos: int, kind: TokenKind) -> Option<
    ParseErrorView,
> {
    match token_at(tokens, pos) {
        None => Some(ParseErrorView::RanOutOfTokens),
        Some(token) => if token.kind == kind {
            None
        } else {
            Some(ParseErrorView::UnexpectedToken(token))
        },
    }
}

/// Whether a token of this kind stands between the two operands of a binary operation.
pub open spec fn is_binary_operator(kind: TokenKind) -> bool {
    match kind {
        TokenKind::Plus
        | TokenKind::Minus
        | TokenKind::Asterisk
        | TokenKind::Slash
        | TokenKind::Modular
        | TokenKind::Equal
        | TokenKind::NotEqual
        | TokenKind::Lt
        | TokenKind::Gt
        | TokenKind::Lte
        | TokenKind::Gte
        | TokenKind::Or
        | TokenKind::And => true,
        _ => false,
    }
}

/// An identifier at `pos`: its name.
pub open spec fn parse_identifier(tokens: Seq<TokenView>, pos: int) -> Parsed<Seq<char>> {
    match mismatch(tokens, pos, TokenKind::Ident) {
        Some(error) => refused(error, pos),
        None => read(tokens[pos].text, pos + 1),
    }
}

/// An integer literal at `pos`.
pub open spec fn parse_integer(tokens: Seq<TokenView>, pos: int) -> Parsed<ExprView> {
    match mismatch(tokens, pos, TokenKind::Int) {
        Some(error) => refused(error, pos),
        None => read(ExprView::Integer { digits: tokens[pos].text }, pos + 1),
    }
}

/// A string literal at `pos`.
pub open spec fn parse_string(tokens: Seq<TokenView>, pos: int) -> Parsed<ExprView> {
    match mismatch(tokens, pos, TokenKind::String) {
        Some(error) => refused(error, pos),
        None => read(ExprView::String { text: tokens[pos].text }, pos + 1),
    }
}

/// The parameters of a function from `pos` on, after the first: each comes
/// behind a comma, a comma may stand before the closing parenthesis, and the
/// closing parenthesis ends the list. `names` holds the parameters before.
pub open spec fn parse_more_parameters(
    tokens: Seq<TokenView>,
    pos: int,
    names: Seq<Seq<char>>,
) -> Parsed<Seq<Seq<char>>>
    decreases tokens.len() - pos,
{
    if is_kind(tokens, pos, TokenKind::Comma) {
        if is_kind(tokens, pos + 1, TokenKind::RParent) {
            read(names, pos + 2)
        } else {
            let next = parse_identifier(tokens, pos + 1);
            match next.result {
                Ok(name) => parse_more_parameters(tokens, next.position, names.push(name)),
                Err(error) => refused(error, next.position),
            }
        }
    } else {
        match mismatch(tokens, pos, TokenKind::RParent) {
            Some(error) => refused(error, pos),
            None => read(names, pos + 1),
        }
    }
}

/// A parameter list at `pos`: identifiers between parentheses, separated by commas.
pub open spec fn parse_parameters(tokens: Seq<TokenView>, pos: int) -> Parsed<Seq<Seq<char>>> {
    match mismatch(tokens, pos, TokenKind::LParent) {
        Some(error) => refused(error, pos),
        None => if is_kind(tokens, pos + 1, TokenKind::RParent) {
            read(Seq::empty(), pos + 2)
        } else {
            let first = parse_identifier(tokens, pos + 1);
            match first.result {
                Ok(name) => parse_more_parameters(tokens, first.position, seq![name]),
                Err(error) => refused(error, first.position),
            }
        },
    }
}

/// An expression at `pos` that binds tighter than `precedence`: an operand,
/// then the binary operators and calls that follow it for as long as they
/// bind tighter than `precedence`.
///
/// Here and below, where one step follows another, the second is taken only
/// if the first ended behind where it began and within the tokens. That is
/// what makes these definitions well-founded; every step that reads
/// something does end so, as the lemmas on progress show.
pub open spec fn parse_expression(tokens: Seq<TokenView>, pos: int, precedence: nat) -> Parsed<
    ExprView,
>
    decreases tokens.len() - pos, 2nat,
{
    let left = parse_operand(tokens, pos);
    match left.result {
        Ok(operand) => if pos < left.position <= tokens.len() {
            parse_operations(tokens, left.position, operand, precedence)
        } else {
            left
        },
        Err(_) => left,
    }
}

/// An operand at `pos`: what the token there begins.
pub open spec fn parse_operand(tokens: Seq<TokenView>, pos: int) -> Parsed<ExprView>
    decreases tokens.len() - pos, 1nat,
{
    match token_at(tokens, pos) {
        None => refused(ParseErrorView::RanOutOfTokens, pos),
        Some(token) => match token.kind {
            TokenKind::Ident => read(ExprView::Identifier { name: token.text }, pos + 1),
            TokenKind::Int => parse_integer(tokens, pos),
            TokenKind::String => parse_string(tokens, pos),
            TokenKind::True => read(ExprView::Boolean { val: true }, pos + 1),
            TokenKind::False => read(ExprView::Boolean { val: false }, pos + 1),
            TokenKind::Minus | TokenKind::Bang => parse_prefix_expression(tokens, pos),
            TokenKind::LParent => parse_grouped_expression(tokens, pos),
            TokenKind::If => parse_if_expression(tokens, pos),
            TokenKind::Function => parse_function_expression(tokens, pos),
            TokenKind::While => parse_while_expression(tokens, pos),
            _ => refused(ParseErrorView::UnexpectedToken(token), pos),
        },
    }
}

/// A unary operation at `pos`: the operator, then an operand that binds as
/// tight as a unary operator.
pub open spec fn parse_prefix_expression(tokens: Seq<TokenView>, pos: int) -> Parsed<ExprView>
    decreases tokens.len() - pos, 0nat,
{
    match token_at(tokens, pos) {
        None => refused(ParseErrorView::RanOutOfTokens, pos),
        Some(operator) => {
            let right = parse_expression(tokens, pos + 1, Precedences::Prefix.rank());
            match right.result {
                Ok(operand) => read(
                    ExprView::Prefix { operator, right: Box::new(operand) },
                    right.position,
                ),
                Err(_) => right,
            }
        },
    }
}

/// An expression between parentheses at `pos`.
pub open spec fn parse_grouped_expression(tokens: Seq<TokenView>, pos: int) -> Parsed<ExprView>
    decreases tokens.len() - pos, 0nat,
{
    if pos < 0 || pos >= tokens.len() {
        refused(ParseErrorView::RanOutOfTokens, pos)
    } else {
        let inner = parse_expression(tokens, pos + 1, Precedences::Lowest.rank());
        match inner.result {
            Ok(expression) => match mismatch(tokens, inner.position, TokenKind::RParent) {
                Some(error) => refused(error, inner.position),
                None => read(expression, inner.position + 1),
            },
            Err(_) => inner,
        }
    }
}

/// A condition between parentheses at `pos`, and the position behind it.
pub open spec fn parse_condition(tokens: Seq<TokenView>, pos: int) -> Parsed<ExprView>
    decreases tokens.len() - pos, 0nat,
{
    match mismatch(tokens, pos, TokenKind::LParent) {
        Some(error) => refused(error, pos),
        None => {
            let condition = parse_expression(tokens, pos + 1, Precedences::Lowest.rank());
            match condition.result {
                Ok(expression) => match mismatch(tokens, condition.position, TokenKind::RParent) {
                    Some(error) => refused(error, condition.position),
                    None => read(expression, condition.position + 1),
                },
                Err(_) => condition,
            }
        },
    }
}

/// A conditional at `pos`: `if`, a condition between parentheses, a block,
/// and, if `else` follows, a second block.
pub open spec fn parse_if_expression(tokens: Seq<TokenView>, pos: int) -> Parsed<ExprView>
    decreases tokens.len() - pos, 0nat,
{
    if pos < 0 || pos >= tokens.len() {
        refused(ParseErrorView::RanOutOfTokens, pos)
    } else {
        let condition = parse_condition(tokens, pos + 1);
        match condition.result {
            Ok(test) => if pos < condition.position <= tokens.len() {
                let consequence = parse_block_statement(tokens, condition.position);
                match consequence.result {
                    Ok(block) => if !is_kind(tokens, consequence.position, TokenKind::Else) {
                        read(
                            ExprView::If {
                                condition: Box::new(test),
                                consequence: block,
                                alternative: None,
                            },
                            consequence.position,
                        )
                    } else if pos < consequence.position <= tokens.len() {
                        let alternative = parse_block_statement(tokens, consequence.position + 1);
                        match alternative.result {
                            Ok(other) => read(
                                ExprView::If {
                                    condition: Box::new(test),
                                    consequence: block,
                                    alternative: Some(other),
                                },
                                alternative.position,
                            ),
                            Err(error) => refused(error, alternative.position),
                        }
                    } else {
                        refused(ParseErrorView::RanOutOfTokens, consequence.position)
                    },
                    Err(error) => refused(error, consequence.position),
                }
            } else {
                condition
            },
            Err(_) => condition,
        }
    }
}

/// A loop at `pos`: `while`, a condition between parentheses, and a block.
pub open spec fn parse_while_expression(tokens: Seq<TokenView>, pos: int) -> Parsed<ExprView>
    decreases tokens.len() - pos, 0nat,
{
    if pos < 0 || pos >= tokens.len() {
        refused(ParseErrorView::RanOutOfTokens, pos)
    } else {
        let condition = parse_condition(tokens, pos + 1);
        match condition.result {
            Ok(test) => if pos < condition.position <= tokens.len() {
                let body = parse_block_statement(tokens, condition.position);
                match body.result {
                    Ok(block) => read(
                        ExprView::While { condition: Box::new(test), consequence: block },
                        body.position,
                    ),
                    Err(error) => refused(error, body.position),
                }
            } else {
                condition
            },
            Err(_) => condition,
        }
    }
}

/// A function literal at `pos`: `fn`, a parameter list, and a block.
pub open spec fn parse_function_expression(tokens: Seq<TokenView>, pos: int) -> Parsed<ExprView>
    decreases tokens.len() - pos, 0nat,
{
    if pos < 0 || pos >= tokens.len() {
        refused(ParseErrorView::RanOutOfTokens, pos)
    } else {
        let parameters = parse_parameters(tokens, pos + 1);
        match parameters.result {
            Ok(names) => if pos < parameters.position <= tokens.len() {
                let body = parse_block_statement(tokens, parameters.position);
                match body.result {
                    Ok(block) => read(
                        ExprView::Function { parameters: names, body: block },
                        body.position,
                    ),
                    Err(error) => refused(error, body.position),
                }
            } else {
                refused(ParseErrorView::RanOutOfTokens, parameters.position)
            },
            Err(error) => refused(error, parameters.position),
        }
    }
}

/// What follows the operand `left`, which ended at `pos`: while the token
/// at hand is a binary operator or an opening parenthesis and binds tighter
/// than `precedence`, it is taken, with its right operand or its arguments,
/// and what was read so far becomes the left operand or the callee. The
/// right operand of an operator binds tighter than the operator, so that
/// operators of one rank associate to the left.
pub open spec fn parse_operations(
    tokens: Seq<TokenView>,
    pos: int,
    left: ExprView,
    precedence: nat,
) -> Parsed<ExprView>
    decreases tokens.len() - pos, 3nat,
{
    match token_at(tokens, pos) {
        None => read(left, pos),
        Some(token) => if precedence < token.kind.precedence().rank() {
            if is_binary_operator(token.kind) {
                let right = parse_expression(tokens, pos + 1, token.kind.precedence().rank());
                match right.result {
                    Ok(operand) => if pos < right.position <= tokens.len() {
                        parse_operations(
                            tokens,
                            right.position,
                            ExprView::Infix {
                                left: Box::new(left),
                                operator: token,
                                right: Box::new(operand),
                            },
                            precedence,
                        )
                    } else {
                        right
                    },
                    Err(_) => right,
                }
            } else if token.kind == TokenKind::LParent {
                let arguments = parse_call_arguments(tokens, pos);
                match arguments.result {
                    Ok(list) => if pos < arguments.position <= tokens.len() {
                        parse_operations(
                            tokens,
                            arguments.position,
                            ExprView::Call { function: Box::new(left), arguments: list },
                            precedence,
                        )
                    } else {
                        refused(ParseErrorView::RanOutOfTokens, arguments.position)
                    },
                    Err(error) => refused(error, arguments.position),
                }
            } else {
                read(left, pos)
            }
        } else {
            read(left, pos)
        },
    }
}

/// The arguments of a call at `pos`: expressions between parentheses,
/// separated by commas.
pub open spec fn parse_call_arguments(tokens: Seq<TokenView>, pos: int) -> Parsed<Seq<ExprView>>
    decreases tokens.len() - pos, 1nat,
{
    match mismatch(tokens, pos, TokenKind::LParent) {
        Some(error) => refused(error, pos),
        None => if is_kind(tokens, pos + 1, TokenKind::RParent) {
            read(Seq::empty(), pos + 2)
        } else {
            let first = parse_expression(tokens, pos + 1, Precedences::Lowest.rank());
            match first.result {
                Ok(argument) => if pos < first.position <= tokens.len() {
                    parse_more_arguments(tokens, first.position, seq![argument])
                } else {
                    refused(ParseErrorView::RanOutOfTokens, first.position)
                },
                Err(error) => refused(error, first.position),
            }
        },
    }
}

/// The arguments of a call from `pos` on, after the first: each comes behind
/// a comma, a comma may stand before the closing parenthesis, and the
/// closing parenthesis ends the list. `list` holds the arguments before.
pub open spec fn parse_more_arguments(
    tokens: Seq<TokenView>,
    pos: int,
    list: Seq<ExprView>,
) -> Parsed<Seq<ExprView>>
    decreases tokens.len() - pos, 3nat,
{
    if is_kind(tokens, pos, TokenKind::Comma) {
        if is_kind(tokens, pos + 1, TokenKind::RParent) {
            read(list, pos + 2)
        } else {
            let next = parse_expression(tokens, pos + 1, Precedences::Lowest.rank());
            match next.result {
                Ok(argument) => if pos < next.position <= tokens.len() {
                    parse_more_arguments(tokens, next.position, list.push(argument))
                } else {
                    refused(ParseErrorView::RanOutOfTokens, next.position)
                },
                Err(error) => refused(error, next.position),
            }
        }
    } else {
        match mismatch(tokens, pos, TokenKind::RParent) {
            Some(error) => refused(error, pos),
            None => read(list, pos + 1),
        }
    }
}

/// A block at `pos`: statements between braces.
pub open spec fn parse_block_statement(tokens: Seq<TokenView>, pos: int) -> Parsed<Seq<StmtView>>
    decreases tokens.len() - pos, 1nat,
{
    match mismatch(tokens, pos, TokenKind::LBrace) {
        Some(error) => refused(error, pos),
        None => parse_block_rest(tokens, pos + 1, Seq::empty()),
    }
}

/// The statements of a block from `pos` on, up to the closing brace, which
/// is taken. `list` holds the statements before.
pub open spec fn parse_block_rest(tokens: Seq<TokenView>, pos: int, list: Seq<StmtView>) -> Parsed<
    Seq<StmtView>,
>
    decreases tokens.len() - pos, 5nat,
{
    match mismatch(tokens, pos, TokenKind::RBrace) {
        None => read(list, pos + 1),
        Some(ParseErrorView::RanOutOfTokens) => refused(ParseErrorView::RanOutOfTokens, pos),
        Some(_) => {
            let next = parse_statement(tokens, pos);
            match next.result {
                Ok(statement) => if pos < next.position <= tokens.len() {
                    parse_block_rest(tokens, next.position, list.push(statement))
                } else {
                    refused(ParseErrorView::RanOutOfTokens, next.position)
                },
                Err(error) => refused(error, next.position),
            }
        },
    }
}

/// A statement at `pos`: `let` and `ret` begin statements of their own,
/// everything else begins an expression statement.
pub open spec fn parse_statement(tokens: Seq<TokenView>, pos: int) -> Parsed<StmtView>
    decreases tokens.len() - pos, 4nat,
{
    if is_kind(tokens, pos, TokenKind::Let) {
        parse_let_statement(tokens, pos)
    } else if is_kind(tokens, pos, TokenKind::Return) {
        parse_return_statement(tokens, pos)
    } else {
        parse_expression_statement(tokens, pos)
    }
}

/// `let`, an identifier, `=`, an expression, and a semicolon.
pub open spec fn parse_let_statement(tokens: Seq<TokenView>, pos: int) -> Parsed<StmtView>
    decreases tokens.len() - pos, 3nat,
{
    if pos < 0 || pos >= tokens.len() {
        refused(ParseErrorView::RanOutOfTokens, pos)
    } else {
        let name = parse_identifier(tokens, pos + 1);
        match name.result {
            Ok(identifier) => match mismatch(tokens, pos + 2, TokenKind::Assign) {
                Some(error) => refused(error, pos + 2),
                None => {
                    let value = parse_expression(tokens, pos + 3, Precedences::Lowest.rank());
                    match value.result {
                        Ok(expression) => match mismatch(
                            tokens,
                            value.position,
                            TokenKind::Semicolon,
                        ) {
                            Some(error) => refused(error, value.position),
                            None => read(
                                StmtView::Let { name: identifier, value: expression },
                                value.position + 1,
                            ),
                        },
                        Err(error) => refused(error, value.position),
                    }
                },
            },
            Err(error) => refused(error, name.position),
        }
    }
}

/// `ret`, an expression, and a semicolon.
pub open spec fn parse_return_statement(tokens: Seq<TokenView>, pos: int) -> Parsed<StmtView>
    decreases tokens.len() - pos, 3nat,
{
    if pos < 0 || pos >= tokens.len() {
        refused(ParseErrorView::RanOutOfTokens, pos)
    } else {
        let value = parse_expression(tokens, pos + 1, Precedences::Lowest.rank());
        match value.result {
            Ok(expression) => match mismatch(tokens, value.position, TokenKind::Semicolon) {
                Some(error) => refused(error, value.position),
                None => read(StmtView::Return { value: expression }, value.position + 1),
            },
            Err(error) => refused(error, value.position),
        }
    }
}

/// An expression, and a semicolon if one follows.
pub open spec fn parse_expression_statement(tokens: Seq<TokenView>, pos: int) -> Parsed<StmtView>
    decreases tokens.len() - pos, 3nat,
{
    let value = parse_expression(tokens, pos, Precedences::Lowest.rank());
    match value.result {
        Ok(expression) => read(
            StmtView::Expression { expression },
            if is_kind(tokens, value.position, TokenKind::Semicolon) {
                value.position + 1
            } else {
                value.position
            },
        ),
        Err(error) => refused(error, value.position),
    }
}

/// The statements of a program from `pos` on, up to the end marker or the
/// end of the tokens. `list` holds the statements before.
pub open spec fn parse_program(tokens: Seq<TokenView>, pos: int, list: Seq<StmtView>) -> Parsed<
    Seq<StmtView>,
>
    decreases tokens.len() - pos, 5nat,
{
    match token_at(tokens, pos) {
        None => read(list, pos),
        Some(token) => if token.kind == TokenKind::Eof {
            read(list, pos)
        } else {
            let next = parse_statement(tokens, pos);
            match next.result {
                Ok(statement) => if pos < next.position <= tokens.len() {
                    parse_program(tokens, next.position, list.push(statement))
                } else {
                    refused(ParseErrorView::RanOutOfTokens, next.position)
                },
                Err(error) => refused(error, next.position),
            }
        },
    }
}

} // verus!
