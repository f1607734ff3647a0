//! Every step of the grammar that reads something moves forward.

use crate::ast::expression::ExprView;
use crate::ast::precedences::Precedences;
use crate::ast::statement::StmtView;
use crate::lexer::token::{TokenKind, TokenView};
use crate::parser::grammar::{
    is_binary_operator, is_kind, mismatch, parse_block_rest, parse_block_statement,
    parse_call_arguments, parse_condition, parse_expression, parse_expression_statement,
    parse_function_expression, parse_grouped_expression, parse_identifier,
    parse_if_expression, parse_let_statement, parse_more_arguments, parse_more_parameters,
    parse_operand, parse_operations, parse_parameters, parse_prefix_expression, parse_program,
    parse_return_statement, parse_statement, parse_while_expression, token_at, Parsed,
};
use vstd::prelude::*;

verus! {

/// Whether a step that began at `pos` and read something ended behind
/// `pos` and within the tokens.
pub open spec fn advances<T>(tokens: Seq<TokenView>, pos: int, step: Parsed<T>) -> bool {
    step.result is Ok ==> pos < step.position <= tokens.len()
}

/// Whether a step that began at `pos` within the tokens and read something
/// ended at `pos` or behind it, and within the tokens.
pub open spec fn stays<T>(tokens: Seq<TokenView>, pos: int, step: Parsed<T>) -> bool {
    step.result is Ok ==> pos <= step.position <= tokens.len()
}

/// The parameters behind the first are read forward.
pub proof fn lemma_more_parameters_advance(
    tokens: Seq<TokenView>,
    pos: int,
    names: Seq<Seq<char>>,
)
    requires
        0 <= pos,
    ensures
        advances(tokens, pos, parse_more_parameters(tokens, pos, names)),
    decreases tokens.len() - pos,
{
    if is_kind(tokens, pos, TokenKind::Comma) && !is_kind(tokens, pos + 1, TokenKind::RParent) {
        let next = parse_identifier(tokens, pos + 1);
        if next.result is Ok {
            lemma_more_parameters_advance(
                tokens,
                next.position,
                names.push(next.result->Ok_0),
            );
        }
    }
}

/// A parameter list is read forward.
pub proof fn lemma_parameters_advance(tokens: Seq<TokenView>, pos: int)
    requires
        0 <= pos,
    ensures
        advances(tokens, pos, parse_parameters(tokens, pos)),
{
    if mismatch(tokens, pos, TokenKind::LParent) is None && !is_kind(
        tokens,
        pos + 1,
        TokenKind::RParent,
    ) {
        let first = parse_identifier(tokens, pos + 1);
        if first.result is Ok {
            lemma_more_parameters_advance(tokens, first.position, seq![first.result->Ok_0]);
        }
    }
}

/// An expression is read forward: where `parse_expression` reads one, it
/// ends behind where it began, and within the tokens.
pub proof fn lemma_expression_advances(tokens: Seq<TokenView>, pos: int, precedence: nat)
    requires
        0 <= pos,
    ensures
        advances(tokens, pos, parse_expression(tokens, pos, precedence)),
    decreases tokens.len() - pos, 2nat,
{
    let left = parse_operand(tokens, pos);
    lemma_operand_advances(tokens, pos);
    if left.result is Ok {
        lemma_operations_stay(tokens, left.position, left.result->Ok_0, precedence);
    }
}

/// An operand is read forward.
pub proof fn lemma_operand_advances(tokens: Seq<TokenView>, pos: int)
    requires
        0 <= pos,
    ensures
        advances(tokens, pos, parse_operand(tokens, pos)),
    decreases tokens.len() - pos, 1nat,
{
    match token_at(tokens, pos) {
        None => {},
        Some(token) => match token.kind {
            TokenKind::Minus | TokenKind::Bang => lemma_prefix_advances(tokens, pos),
            TokenKind::LParent => lemma_grouped_advances(tokens, pos),
            TokenKind::If => lemma_if_advances(tokens, pos),
            TokenKind::Function => lemma_function_advances(tokens, pos),
            TokenKind::While => lemma_while_advances(tokens, pos),
            _ => {},
        },
    }
}

/// A unary operation is read forward.
pub proof fn lemma_prefix_advances(tokens: Seq<TokenView>, pos: int)
    requires
        0 <= pos < tokens.len(),
    ensures
        advances(tokens, pos, parse_prefix_expression(tokens, pos)),
    decreases tokens.len() - pos, 0nat,
{
    lemma_expression_advances(tokens, pos + 1, Precedences::Prefix.rank());
}

/// An expression between parentheses is read forward.
pub proof fn lemma_grouped_advances(tokens: Seq<TokenView>, pos: int)
    requires
        0 <= pos < tokens.len(),
    ensures
        advances(tokens, pos, parse_grouped_expression(tokens, pos)),
    decreases tokens.len() - pos, 0nat,
{
    lemma_expression_advances(tokens, pos + 1, Precedences::Lowest.rank());
}

/// A condition between parentheses is read forward.
pub proof fn lemma_condition_advances(tokens: Seq<TokenView>, pos: int)
    requires
        0 <= pos,
    ensures
        advances(tokens, pos, parse_condition(tokens, pos)),
    decreases tokens.len() - pos, 0nat,
{
    if mismatch(tokens, pos, TokenKind::LParent) is None {
        lemma_expression_advances(tokens, pos + 1, Precedences::Lowest.rank());
    }
}

/// A conditional is read forward.
pub proof fn lemma_if_advances(tokens: Seq<TokenView>, pos: int)
    requires
        0 <= pos < tokens.len(),
    ensures
        advances(tokens, pos, parse_if_expression(tokens, pos)),
    decreases tokens.len() - pos, 0nat,
{
    let condition = parse_condition(tokens, pos + 1);
    lemma_condition_advances(tokens, pos + 1);
    if condition.result is Ok {
        let consequence = parse_block_statement(tokens, condition.position);
        lemma_block_advances(tokens, condition.position);
        if consequence.result is Ok && is_kind(tokens, consequence.position, TokenKind::Else) {
            lemma_block_advances(tokens, consequence.position + 1);
        }
    }
}

/// A loop is read forward.
pub proof fn lemma_while_advances(tokens: Seq<TokenView>, pos: int)
    requires
        0 <= pos < tokens.len(),
    ensures
        advances(tokens, pos, parse_while_expression(tokens, pos)),
    decreases tokens.len() - pos, 0nat,
{
    let condition = parse_condition(tokens, pos + 1);
    lemma_condition_advances(tokens, pos + 1);
    if condition.result is Ok {
        lemma_block_advances(tokens, condition.position);
    }
}

/// A function literal is read forward.
pub proof fn lemma_function_advances(tokens: Seq<TokenView>, pos: int)
    requires
        0 <= pos < tokens.len(),
    ensures
        advances(tokens, pos, parse_function_expression(tokens, pos)),
    decreases tokens.len() - pos, 0nat,
{
    let parameters = parse_parameters(tokens, pos + 1);
    lemma_parameters_advance(tokens, pos + 1);
    if parameters.result is Ok {
        lemma_block_advances(tokens, parameters.position);
    }
}

/// The operations behind an operand are read forward, or not at all.
pub proof fn lemma_operations_stay(
    tokens: Seq<TokenView>,
    pos: int,
    left: ExprView,
    precedence: nat,
)
    requires
        0 <= pos <= tokens.len(),
    ensures
        stays(tokens, pos, parse_operations(tokens, pos, left, precedence)),
    decreases tokens.len() - pos, 3nat,
{
    match token_at(tokens, pos) {
        None => {},
        Some(token) => if precedence < token.kind.precedence().rank() {
            if is_binary_operator(token.kind) {
                let right = parse_expression(tokens, pos + 1, token.kind.precedence().rank());
                lemma_expression_advances(tokens, pos + 1, token.kind.precedence().rank());
                if right.result is Ok {
                    lemma_operations_stay(
                        tokens,
                        right.position,
                        ExprView::Infix {
                            left: Box::new(left),
                            operator: token,
                            right: Box::new(right.result->Ok_0),
                        },
                        precedence,
                    );
                }
            } else if token.kind == TokenKind::LParent {
                let arguments = parse_call_arguments(tokens, pos);
                lemma_call_arguments_advance(tokens, pos);
                if arguments.result is Ok {
                    lemma_operations_stay(
                        tokens,
                        arguments.position,
                        ExprView::Call {
                            function: Box::new(left),
                            arguments: arguments.result->Ok_0,
                        },
                        precedence,
                    );
                }
            }
        },
    }
}

/// The arguments of a call are read forward.
pub proof fn lemma_call_arguments_advance(tokens: Seq<TokenView>, pos: int)
    requires
        0 <= pos,
    ensures
        advances(tokens, pos, parse_call_arguments(tokens, pos)),
    decreases tokens.len() - pos, 1nat,
{
    if mismatch(tokens, pos, TokenKind::LParent) is None && !is_kind(
        tokens,
        pos + 1,
        TokenKind::RParent,
    ) {
        let first = parse_expression(tokens, pos + 1, Precedences::Lowest.rank());
        lemma_expression_advances(tokens, pos + 1, Precedences::Lowest.rank());
        if first.result is Ok {
            lemma_more_arguments_advance(tokens, first.position, seq![first.result->Ok_0]);
        }
    }
}

/// The arguments behind the first are read forward.
pub proof fn lemma_more_arguments_advance(tokens: Seq<TokenView>, pos: int, list: Seq<ExprView>)
    requires
        0 <= pos,
    ensures
        advances(tokens, pos, parse_more_arguments(tokens, pos, list)),
    decreases tokens.len() - pos, 3nat,
{
    if is_kind(tokens, pos, TokenKind::Comma) && !is_kind(tokens, pos + 1, TokenKind::RParent) {
        let next = parse_expression(tokens, pos + 1, Precedences::Lowest.rank());
        lemma_expression_advances(tokens, pos + 1, Precedences::Lowest.rank());
        if next.result is Ok {
            lemma_more_arguments_advance(tokens, next.position, list.push(next.result->Ok_0));
        }
    }
}

/// A block is read forward.
pub proof fn lemma_block_advances(tokens: Seq<TokenView>, pos: int)
    requires
        0 <= pos,
    ensures
        advances(tokens, pos, parse_block_statement(tokens, pos)),
    decreases tokens.len() - pos, 1nat,
{
    if mismatch(tokens, pos, TokenKind::LBrace) is None {
        lemma_block_rest_advances(tokens, pos + 1, Seq::empty());
    }
}

/// The statements of a block, and its closing brace, are read forward.
pub proof fn lemma_block_rest_advances(tokens: Seq<TokenView>, pos: int, list: Seq<StmtView>)
    requires
        0 <= pos,
    ensures
        advances(tokens, pos, parse_block_rest(tokens, pos, list)),
    decreases tokens.len() - pos, 5nat,
{
    if 0 <= pos < tokens.len() && tokens[pos].kind != TokenKind::RBrace {
        let next = parse_statement(tokens, pos);
        lemma_statement_advances(tokens, pos);
        if next.result is Ok {
            lemma_block_rest_advances(tokens, next.position, list.push(next.result->Ok_0));
        }
    }
}

/// A statement is read forward.
pub proof fn lemma_statement_advances(tokens: Seq<TokenView>, pos: int)
    requires
        0 <= pos,
    ensures
        advances(tokens, pos, parse_statement(tokens, pos)),
    decreases tokens.len() - pos, 4nat,
{
    if is_kind(tokens, pos, TokenKind::Let) {
        lemma_let_advances(tokens, pos);
    } else if is_kind(tokens, pos, TokenKind::Return) {
        lemma_return_advances(tokens, pos);
    } else {
        lemma_expression_statement_advances(tokens, pos);
    }
}

/// A `let` statement is read forward.
pub proof fn lemma_let_advances(tokens: Seq<TokenView>, pos: int)
    requires
        0 <= pos,
    ensures
        advances(tokens, pos, parse_let_statement(tokens, pos)),
    decreases tokens.len() - pos, 3nat,
{
    if pos + 3 <= tokens.len() {
        lemma_expression_advances(tokens, pos + 3, Precedences::Lowest.rank());
    }
}

/// A `ret` statement is read forward.
pub proof fn lemma_return_advances(tokens: Seq<TokenView>, pos: int)
    requires
        0 <= pos,
    ensures
        advances(tokens, pos, parse_return_statement(tokens, pos)),
    decreases tokens.len() - pos, 3nat,
{
    if pos + 1 <= tokens.len() {
        lemma_expression_advances(tokens, pos + 1, Precedences::Lowest.rank());
    }
}

/// An expression statement is read forward.
pub proof fn lemma_expression_statement_advances(tokens: Seq<TokenView>, pos: int)
    requires
        0 <= pos,
    ensures
        advances(tokens, pos, parse_expression_statement(tokens, pos)),
    decreases tokens.len() - pos, 3nat,
{
    lemma_expression_advances(tokens, pos, Precedences::Lowest.rank());
}

/// A program is read forward, or not at all.
pub proof fn lemma_program_stays(tokens: Seq<TokenView>, pos: int, list: Seq<StmtView>)
    requires
        0 <= pos <= tokens.len(),
    ensures
        stays(tokens, pos, parse_program(tokens, pos, list)),
    decreases tokens.len() - pos,
{
    if 0 <= pos < tokens.len() && tokens[pos].kind != TokenKind::Eof {
        let next = parse_statement(tokens, pos);
        lemma_statement_advances(tokens, pos);
        if next.result is Ok {
            lemma_program_stays(tokens, next.position, list.push(next.result->Ok_0));
        }
    }
}

} // verus!
