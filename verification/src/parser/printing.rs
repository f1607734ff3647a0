//! The tokens of the source text of a tree, and the proof that the grammar
//! reads them back to the tree.

use crate::ast::expression::ExprView;
use crate::ast::precedences::Precedences;
use crate::ast::statement::StmtView;
use crate::lexer::token::{TokenKind, TokenView};
use crate::parser::grammar::{
    is_binary_operator, is_kind, mismatch, parse_block_rest, parse_block_statement,
    parse_call_arguments, parse_condition, parse_expression, parse_expression_statement,
    parse_function_expression, parse_grouped_expression, parse_identifier,
    parse_if_expression, parse_let_statement, parse_more_arguments, parse_more_parameters,
    parse_operand, parse_operations, parse_parameters, parse_prefix_expression, parse_program,
    parse_return_statement, parse_statement, parse_while_expression, read, token_at, Parsed,
};
use vstd::prelude::*;

verus! {

/// A token that carries no text.
pub open spec fn plain(kind: TokenKind) -> TokenView {
    TokenView::plain(kind)
}

/// The identifier token of a name.
pub open spec fn identifier_token(name: Seq<char>) -> TokenView {
    TokenView { kind: TokenKind::Ident, text: name }
}

/// The tokens of the first `count` names of a parameter list, separated by commas.
pub open spec fn names_tokens(names: Seq<Seq<char>>, count: nat) -> Seq<TokenView>
    decreases count,
{
    if count == 0 || count > names.len() {
        Seq::empty()
    } else if count == 1 {
        seq![identifier_token(names[0])]
    } else {
        names_tokens(names, (count - 1) as nat) + seq![
            plain(TokenKind::Comma),
            identifier_token(names[count - 1]),
        ]
    }
}

/// The tokens of a parameter list: the names between parentheses.
pub open spec fn parameter_group(names: Seq<Seq<char>>) -> Seq<TokenView> {
    seq![plain(TokenKind::LParent)] + names_tokens(names, names.len()) + seq![
        plain(TokenKind::RParent),
    ]
}

/// The tokens that the source text of an expression is made of: operations
/// stand between parentheses, as in the text.
#[verifier::opaque]
pub open spec fn expression_tokens(e: ExprView) -> Seq<TokenView>
    decreases e, 0nat,
{
    match e {
        ExprView::Identifier { name } => seq![identifier_token(name)],
        ExprView::Integer { digits } => seq![TokenView { kind: TokenKind::Int, text: digits }],
        ExprView::String { text } => seq![TokenView { kind: TokenKind::String, text }],
        ExprView::Boolean { val } => if val {
            seq![plain(TokenKind::True)]
        } else {
            seq![plain(TokenKind::False)]
        },
        ExprView::Prefix { operator, right } => seq![plain(TokenKind::LParent), operator]
            + expression_tokens(*right) + seq![plain(TokenKind::RParent)],
        ExprView::Infix { left, operator, right } => seq![plain(TokenKind::LParent)]
            + expression_tokens(*left) + seq![operator] + expression_tokens(*right) + seq![
            plain(TokenKind::RParent),
        ],
        ExprView::If { condition, consequence, alternative } => {
            let head = seq![plain(TokenKind::If), plain(TokenKind::LParent)] + expression_tokens(
                *condition,
            ) + seq![plain(TokenKind::RParent)] + braced(consequence);
            match alternative {
                Some(other) => head + seq![plain(TokenKind::Else)] + braced(other),
                None => head,
            }
        },
        ExprView::Function { parameters, body } => seq![plain(TokenKind::Function)]
            + parameter_group(parameters) + braced(body),
        ExprView::Call { function, arguments } => expression_tokens(*function) + argument_group(
            arguments,
        ),
        ExprView::Error { content } => Seq::empty(),
        ExprView::Assign { name, value } => Seq::empty(),
        ExprView::While { condition, consequence } => seq![
            plain(TokenKind::While),
            plain(TokenKind::LParent),
        ] + expression_tokens(*condition) + seq![plain(TokenKind::RParent)] + braced(consequence),
    }
}

/// The tokens of an argument list: the arguments between parentheses.
pub open spec fn argument_group(arguments: Seq<ExprView>) -> Seq<TokenView>
    decreases arguments, arguments.len() + 1,
{
    seq![plain(TokenKind::LParent)] + arguments_tokens(arguments, arguments.len()) + seq![
        plain(TokenKind::RParent),
    ]
}

/// The tokens of a block: the statements between braces.
pub open spec fn braced(statements: Seq<StmtView>) -> Seq<TokenView>
    decreases statements, statements.len() + 1,
{
    seq![plain(TokenKind::LBrace)] + block_tokens(statements, statements.len()) + seq![
        plain(TokenKind::RBrace),
    ]
}

/// The tokens of the first `count` expressions of a list, separated by commas.
pub open spec fn arguments_tokens(arguments: Seq<ExprView>, count: nat) -> Seq<TokenView>
    decreases arguments, count,
{
    if count == 0 || count > arguments.len() {
        Seq::empty()
    } else if count == 1 {
        expression_tokens(arguments[0])
    } else {
        arguments_tokens(arguments, (count - 1) as nat) + seq![plain(TokenKind::Comma)]
            + expression_tokens(arguments[count - 1])
    }
}

/// The tokens that the source text of a statement is made of.
#[verifier::opaque]
pub open spec fn statement_tokens(s: StmtView) -> Seq<TokenView>
    decreases s, 0nat,
{
    match s {
        StmtView::Let { name, value } => seq![
            plain(TokenKind::Let),
            identifier_token(name),
            plain(TokenKind::Assign),
        ] + expression_tokens(value) + seq![plain(TokenKind::Semicolon)],
        StmtView::Return { value } => seq![plain(TokenKind::Return)] + expression_tokens(value)
            + seq![plain(TokenKind::Semicolon)],
        StmtView::Expression { expression } => expression_tokens(expression) + seq![
            plain(TokenKind::Semicolon),
        ],
        StmtView::Block { statements } => Seq::empty(),
    }
}

/// The tokens of the first `count` statements of a list.
pub open spec fn block_tokens(statements: Seq<StmtView>, count: nat) -> Seq<TokenView>
    decreases statements, count,
{
    if count == 0 || count > statements.len() {
        Seq::empty()
    } else {
        block_tokens(statements, (count - 1) as nat) + statement_tokens(statements[count - 1])
    }
}

/// Whether the source text of an expression can be read back: its unary
/// operators are `-` and `!`, its binary operators are binary operators, and
/// it holds no error expression, no assignment and no block statement, whose
/// texts the grammar does not take.
#[verifier::opaque]
pub open spec fn printable(e: ExprView) -> bool
    decreases e, 0nat,
{
    match e {
        ExprView::Identifier { .. } => true,
        ExprView::Integer { .. } => true,
        ExprView::String { .. } => true,
        ExprView::Boolean { .. } => true,
        ExprView::Prefix { operator, right } => (operator.kind == TokenKind::Minus
            || operator.kind == TokenKind::Bang) && printable(*right),
        ExprView::Infix { left, operator, right } => is_binary_operator(operator.kind)
            && printable(*left) && printable(*right),
        ExprView::If { condition, consequence, alternative } => printable(*condition)
            && printable_block(consequence) && match alternative {
            Some(other) => printable_block(other),
            None => true,
        },
        ExprView::Function { parameters, body } => printable_block(body),
        ExprView::Call { function, arguments } => printable(*function) && printable_list(
            arguments,
        ),
        ExprView::Error { .. } => false,
        ExprView::Assign { .. } => false,
        ExprView::While { condition, consequence } => printable(*condition) && printable_block(
            consequence,
        ),
    }
}

/// Whether the source text of each expression of a list can be read back.
pub open spec fn printable_list(list: Seq<ExprView>) -> bool
    decreases list, 1nat,
{
    forall|i: int| 0 <= i < list.len() ==> printable(#[trigger] list[i])
}

/// Whether the source text of a statement can be read back.
#[verifier::opaque]
pub open spec fn printable_statement(s: StmtView) -> bool
    decreases s, 0nat,
{
    match s {
        StmtView::Let { name, value } => printable(value),
        StmtView::Return { value } => printable(value),
        StmtView::Expression { expression } => printable(expression),
        StmtView::Block { .. } => false,
    }
}

/// Whether the source text of each statement of a list can be read back.
pub open spec fn printable_block(statements: Seq<StmtView>) -> bool
    decreases statements, 1nat,
{
    forall|i: int| 0 <= i < statements.len() ==> printable_statement(#[trigger] statements[i])
}

/// Whether `part` stands in `tokens` from `pos` on.
#[verifier::opaque]
pub open spec fn stands_at(tokens: Seq<TokenView>, pos: int, part: Seq<TokenView>) -> bool {
    &&& 0 <= pos
    &&& pos + part.len() <= tokens.len()
    &&& forall|i: int| 0 <= i < part.len() ==> tokens[pos + i] == #[trigger] part[i]
}

/// Whether a token of this kind can begin an expression.
pub open spec fn begins_expression(kind: TokenKind) -> bool {
    match kind {
        TokenKind::Ident
        | TokenKind::Int
        | TokenKind::String
        | TokenKind::True
        | TokenKind::False
        | TokenKind::LParent
        | TokenKind::If
        | TokenKind::Function
        | TokenKind::While => true,
        _ => false,
    }
}

/// Whether the operations behind an operand end at `pos`: no token is left
/// there, or the token there binds no tighter than `precedence`, or it is
/// neither a binary operator nor an opening parenthesis.
pub open spec fn ends_operations(tokens: Seq<TokenView>, pos: int, precedence: nat) -> bool {
    match token_at(tokens, pos) {
        None => true,
        Some(token) => precedence >= token.kind.precedence().rank() || (!is_binary_operator(
            token.kind,
        ) && token.kind != TokenKind::LParent),
    }
}

/// A part that stands in the tokens lies within them.
pub proof fn lemma_stands_within(tokens: Seq<TokenView>, pos: int, part: Seq<TokenView>)
    requires
        stands_at(tokens, pos, part),
    ensures
        0 <= pos,
        pos + part.len() <= tokens.len(),
{
    reveal(stands_at);
}

/// Each token of a part that stands in the tokens is found there.
pub proof fn lemma_stands_token(tokens: Seq<TokenView>, pos: int, part: Seq<TokenView>, index: int)
    requires
        stands_at(tokens, pos, part),
        0 <= index < part.len(),
    ensures
        0 <= pos + index < tokens.len(),
        tokens[pos + index] == part[index],
        token_at(tokens, pos + index) == Some(part[index]),
{
    reveal(stands_at);
}

/// Where two parts stand one behind the other, each stands.
pub proof fn lemma_stands_split(
    tokens: Seq<TokenView>,
    pos: int,
    first: Seq<TokenView>,
    second: Seq<TokenView>,
)
    requires
        stands_at(tokens, pos, first + second),
    ensures
        stands_at(tokens, pos, first),
        stands_at(tokens, pos + first.len(), second),
        0 <= pos,
        pos + first.len() + second.len() <= tokens.len(),
{
    reveal(stands_at);
    assert forall|i: int| 0 <= i < first.len() implies tokens[pos + i] == #[trigger] first[i] by {
        assert((first + second)[i] == first[i]);
    }
    assert forall|i: int| 0 <= i < second.len() implies tokens[pos + first.len() + i]
        == #[trigger] second[i] by {
        assert((first + second)[first.len() + i] == second[i]);
    }
}

/// Where one part stands behind another, the two stand together.
pub proof fn lemma_stands_join(
    tokens: Seq<TokenView>,
    pos: int,
    first: Seq<TokenView>,
    second: Seq<TokenView>,
)
    requires
        stands_at(tokens, pos, first),
        stands_at(tokens, pos + first.len(), second),
    ensures
        stands_at(tokens, pos, first + second),
{
    reveal(stands_at);
    assert forall|i: int| 0 <= i < (first + second).len() implies tokens[pos + i] == #[trigger] (
    first + second)[i] by {
        if i < first.len() {
            assert(tokens[pos + i] == first[i]);
        } else {
            assert(tokens[pos + first.len() + (i - first.len())] == second[i - first.len()]);
        }
    }
}

/// The empty part stands everywhere within the tokens.
pub proof fn lemma_stands_empty(tokens: Seq<TokenView>, pos: int)
    requires
        0 <= pos <= tokens.len(),
    ensures
        stands_at(tokens, pos, Seq::empty()),
{
    reveal(stands_at);
}

/// What stands between an opening and a closing token, with the closing
/// token, stands behind the opening token.
pub proof fn lemma_stands_inside(
    tokens: Seq<TokenView>,
    pos: int,
    open: TokenView,
    inner: Seq<TokenView>,
    close: TokenView,
)
    requires
        stands_at(tokens, pos, seq![open] + inner + seq![close]),
    ensures
        0 <= pos,
        pos + inner.len() + 2 <= tokens.len(),
        tokens[pos] == open,
        tokens[pos + 1 + inner.len()] == close,
        stands_at(tokens, pos + 1, inner),
        stands_at(tokens, pos + 1, inner + seq![close]),
{
    lemma_stands_split(tokens, pos, seq![open] + inner, seq![close]);
    lemma_stands_split(tokens, pos, seq![open], inner);
    lemma_stands_token(tokens, pos, seq![open], 0);
    lemma_stands_token(tokens, pos + 1 + inner.len(), seq![close], 0);
    lemma_stands_join(tokens, pos + 1, inner, seq![close]);
}

/// The tokens of a printable expression begin with a token that begins an expression.
pub proof fn lemma_expression_begins(e: ExprView)
    requires
        printable(e),
    ensures
        expression_tokens(e).len() > 0,
        begins_expression(expression_tokens(e)[0].kind),
    decreases e,
{
    reveal(printable);
    reveal(expression_tokens);
    match e {
        ExprView::Call { function, arguments } => {
            lemma_expression_begins(*function);
        },
        _ => {},
    }
}

/// The tokens of a printable statement begin with a token that is no closing
/// brace and no end marker.
pub proof fn lemma_statement_begins(s: StmtView)
    requires
        printable_statement(s),
    ensures
        statement_tokens(s).len() > 0,
        statement_tokens(s)[0].kind != TokenKind::RBrace,
        statement_tokens(s)[0].kind != TokenKind::Eof,
{
    reveal(printable_statement);
    reveal(statement_tokens);
    reveal(printable);
    reveal(expression_tokens);
    match s {
        StmtView::Expression { expression } => {
            lemma_expression_begins(expression);
        },
        _ => {},
    }
}

/// Where the operations end, what was read so far is the expression.
pub proof fn lemma_operations_end(tokens: Seq<TokenView>, pos: int, left: ExprView, precedence: nat)
    requires
        ends_operations(tokens, pos, precedence),
    ensures
        parse_operations(tokens, pos, left, precedence) == read(left, pos),
{
}

/// The tokens of the first names of a parameter list stand where those of
/// all of them stand; the next name stands behind them, after a comma if it
/// is not the first.
proof fn lemma_names_part(tokens: Seq<TokenView>, base: int, names: Seq<Seq<char>>, count: int)
    requires
        stands_at(tokens, base, names_tokens(names, names.len())),
        0 <= count <= names.len(),
    ensures
        stands_at(tokens, base, names_tokens(names, count as nat)),
        names_tokens(names, count as nat).len() <= names_tokens(names, names.len()).len(),
        count == 0 ==> names_tokens(names, 0).len() == 0,
        count == 0 && names.len() > 0 ==> names_tokens(names, 1).len() == 1 && token_at(
            tokens,
            base,
        ) == Some(identifier_token(names[0])),
        0 < count < names.len() ==> names_tokens(names, (count + 1) as nat).len()
            == names_tokens(names, count as nat).len() + 2 && token_at(
            tokens,
            base + names_tokens(names, count as nat).len(),
        ) == Some(plain(TokenKind::Comma)) && token_at(
            tokens,
            base + names_tokens(names, count as nat).len() + 1,
        ) == Some(identifier_token(names[count])),
    decreases names.len() - count,
{
    if count < names.len() {
        lemma_names_part(tokens, base, names, count + 1);
        let longer = names_tokens(names, (count + 1) as nat);
        if count == 0 {
            lemma_stands_token(tokens, base, longer, 0);
            lemma_stands_within(tokens, base, longer);
            lemma_stands_empty(tokens, base);
            assert(names_tokens(names, 0) =~= Seq::empty());
        } else {
            let shorter = names_tokens(names, count as nat);
            let added = seq![plain(TokenKind::Comma), identifier_token(names[count])];
            assert(longer == shorter + added);
            lemma_stands_split(tokens, base, shorter, added);
            lemma_stands_token(tokens, base + shorter.len(), added, 0);
            lemma_stands_token(tokens, base + shorter.len(), added, 1);
        }
    }
}

/// The names of a parameter list behind the first `count` are read back from
/// their tokens.
#[verifier::rlimit(100)]
proof fn lemma_read_more_parameters(
    tokens: Seq<TokenView>,
    base: int,
    names: Seq<Seq<char>>,
    count: int,
)
    requires
        stands_at(tokens, base, names_tokens(names, names.len()) + seq![plain(TokenKind::RParent)]),
        1 <= count <= names.len(),
    ensures
        parse_more_parameters(
            tokens,
            base + names_tokens(names, count as nat).len(),
            names.take(count),
        ) == read(names, base + names_tokens(names, names.len()).len() + 1),
    decreases names.len() - count,
{
    let all = names_tokens(names, names.len());
    let close = seq![plain(TokenKind::RParent)];
    lemma_stands_split(tokens, base, all, close);
    lemma_stands_token(tokens, base + all.len(), close, 0);
    lemma_names_part(tokens, base, names, count);
    let here = base + names_tokens(names, count as nat).len();
    if count == names.len() {
        assert(names.take(count) =~= names);
    } else {
        assert(names.take(count).push(names[count]) =~= names.take(count + 1));
        lemma_read_more_parameters(tokens, base, names, count + 1);
        assert(parse_identifier(tokens, here + 1) == read(names[count], here + 2));
    }
}

/// A parameter list is read back from its tokens.
#[verifier::rlimit(100)]
pub proof fn lemma_read_parameters(tokens: Seq<TokenView>, pos: int, names: Seq<Seq<char>>)
    requires
        stands_at(tokens, pos, parameter_group(names)),
    ensures
        parse_parameters(tokens, pos) == read(names, pos + parameter_group(names).len()),
        pos < pos + parameter_group(names).len() <= tokens.len(),
{
    let all = names_tokens(names, names.len());
    lemma_stands_inside(tokens, pos, plain(TokenKind::LParent), all, plain(TokenKind::RParent));
    if names.len() == 0 {
        assert(names =~= Seq::empty());
    } else {
        lemma_names_part(tokens, pos + 1, names, 0);
        lemma_read_more_parameters(tokens, pos + 1, names, 1);
        assert(names.take(1) =~= seq![names[0]]);
        assert(parse_identifier(tokens, pos + 1) == read(names[0], pos + 2));
    }
}

/// The tokens of the first statements of a list stand where those of all of
/// them stand, and the next statement stands behind them.
proof fn lemma_block_part(tokens: Seq<TokenView>, base: int, statements: Seq<StmtView>, count: int)
    requires
        stands_at(tokens, base, block_tokens(statements, statements.len())),
        0 <= count <= statements.len(),
    ensures
        stands_at(tokens, base, block_tokens(statements, count as nat)),
        block_tokens(statements, count as nat).len() <= block_tokens(
            statements,
            statements.len(),
        ).len(),
        count == 0 ==> block_tokens(statements, 0).len() == 0,
        count < statements.len() ==> stands_at(
            tokens,
            base + block_tokens(statements, count as nat).len(),
            statement_tokens(statements[count]),
        ) && block_tokens(statements, (count + 1) as nat).len() == block_tokens(
            statements,
            count as nat,
        ).len() + statement_tokens(statements[count]).len(),
    decreases statements.len() - count,
{
    reveal(statement_tokens);
    if count < statements.len() {
        lemma_block_part(tokens, base, statements, count + 1);
        let shorter = block_tokens(statements, count as nat);
        let added = statement_tokens(statements[count]);
        assert(block_tokens(statements, (count + 1) as nat) == shorter + added);
        lemma_stands_split(tokens, base, shorter, added);
    }
}

/// The tokens of the first expressions of a list stand where those of all
/// of them stand; the next expression stands behind them, after a comma if
/// it is not the first.
proof fn lemma_arguments_part(
    tokens: Seq<TokenView>,
    base: int,
    arguments: Seq<ExprView>,
    count: int,
)
    requires
        stands_at(tokens, base, arguments_tokens(arguments, arguments.len())),
        0 <= count <= arguments.len(),
    ensures
        stands_at(tokens, base, arguments_tokens(arguments, count as nat)),
        arguments_tokens(arguments, count as nat).len() <= arguments_tokens(
            arguments,
            arguments.len(),
        ).len(),
        count == 0 ==> arguments_tokens(arguments, 0).len() == 0,
        count == 0 && arguments.len() > 0 ==> stands_at(
            tokens,
            base,
            expression_tokens(arguments[0]),
        ) && arguments_tokens(arguments, 1).len() == expression_tokens(arguments[0]).len(),
        0 < count < arguments.len() ==> token_at(
            tokens,
            base + arguments_tokens(arguments, count as nat).len(),
        ) == Some(plain(TokenKind::Comma)) && stands_at(
            tokens,
            base + arguments_tokens(arguments, count as nat).len() + 1,
            expression_tokens(arguments[count]),
        ) && arguments_tokens(arguments, (count + 1) as nat).len() == arguments_tokens(
            arguments,
            count as nat,
        ).len() + 1 + expression_tokens(arguments[count]).len(),
    decreases arguments.len() - count,
{
    reveal(expression_tokens);
    if count < arguments.len() {
        lemma_arguments_part(tokens, base, arguments, count + 1);
        if count == 0 {
            lemma_stands_within(tokens, base, arguments_tokens(arguments, 1));
            lemma_stands_empty(tokens, base);
            assert(arguments_tokens(arguments, 0) =~= Seq::empty());
        } else {
            let shorter = arguments_tokens(arguments, count as nat);
            let comma = seq![plain(TokenKind::Comma)];
            let added = expression_tokens(arguments[count]);
            assert(arguments_tokens(arguments, (count + 1) as nat) == shorter + comma + added);
            lemma_stands_split(tokens, base, shorter + comma, added);
            lemma_stands_split(tokens, base, shorter, comma);
            lemma_stands_token(tokens, base + shorter.len(), comma, 0);
        }
    }
}

/// Each expression of a printable list is printable.
proof fn lemma_list_element(list: Seq<ExprView>, index: int)
    requires
        printable_list(list),
        0 <= index < list.len(),
    ensures
        printable(list[index]),
{
    reveal(printable);
}

/// Each statement of a printable block is printable.
proof fn lemma_block_element(statements: Seq<StmtView>, index: int)
    requires
        printable_block(statements),
        0 <= index < statements.len(),
    ensures
        printable_statement(statements[index]),
{
    reveal(printable_statement);
}

/// The one token of a name or a literal.
pub open spec fn atom_token(e: ExprView) -> TokenView {
    match e {
        ExprView::Identifier { name } => identifier_token(name),
        ExprView::Integer { digits } => TokenView { kind: TokenKind::Int, text: digits },
        ExprView::String { text } => TokenView { kind: TokenKind::String, text },
        ExprView::Boolean { val } => if val {
            plain(TokenKind::True)
        } else {
            plain(TokenKind::False)
        },
        _ => plain(TokenKind::Illegal),
    }
}

/// Whether `e` is a name or a literal.
pub open spec fn is_atom(e: ExprView) -> bool {
    e is Identifier || e is Integer || e is String || e is Boolean
}

/// How the tokens of a name or a literal lie.
proof fn lemma_atom_shape(tokens: Seq<TokenView>, pos: int, e: ExprView)
    requires
        is_atom(e),
        stands_at(tokens, pos, expression_tokens(e)),
    ensures
        expression_tokens(e).len() == 1,
        token_at(tokens, pos) == Some(atom_token(e)),
{
    reveal(expression_tokens);
    lemma_stands_token(tokens, pos, expression_tokens(e), 0);
}

/// How the tokens of a unary operation lie.
proof fn lemma_prefix_shape(
    tokens: Seq<TokenView>,
    pos: int,
    operator: TokenView,
    right: ExprView,
)
    requires
        printable(ExprView::Prefix { operator, right: Box::new(right) }),
        stands_at(
            tokens,
            pos,
            expression_tokens(ExprView::Prefix { operator, right: Box::new(right) }),
        ),
    ensures
        printable(right),
        operator.kind == TokenKind::Minus || operator.kind == TokenKind::Bang,
        expression_tokens(ExprView::Prefix { operator, right: Box::new(right) }).len()
            == expression_tokens(right).len() + 3,
        token_at(tokens, pos) == Some(plain(TokenKind::LParent)),
        token_at(tokens, pos + 1) == Some(operator),
        stands_at(tokens, pos + 2, expression_tokens(right)),
        token_at(tokens, pos + 2 + expression_tokens(right).len()) == Some(
            plain(TokenKind::RParent),
        ),
{
    reveal(printable);
    reveal(expression_tokens);
    reveal(printable_statement);
    reveal(statement_tokens);
    let e = ExprView::Prefix { operator, right: Box::new(right) };
    let open = seq![plain(TokenKind::LParent), operator];
    let inner = expression_tokens(right);
    let close = seq![plain(TokenKind::RParent)];
    assert(expression_tokens(e) == open + inner + close);
    lemma_stands_split(tokens, pos, open + inner, close);
    lemma_stands_split(tokens, pos, open, inner);
    lemma_stands_token(tokens, pos, open, 0);
    lemma_stands_token(tokens, pos, open, 1);
    lemma_stands_token(tokens, pos + 2 + inner.len(), close, 0);
}

/// How the tokens of a binary operation lie.
proof fn lemma_infix_shape(
    tokens: Seq<TokenView>,
    pos: int,
    left: ExprView,
    operator: TokenView,
    right: ExprView,
)
    requires
        printable(ExprView::Infix { left: Box::new(left), operator, right: Box::new(right) }),
        stands_at(
            tokens,
            pos,
            expression_tokens(
                ExprView::Infix { left: Box::new(left), operator, right: Box::new(right) },
            ),
        ),
    ensures
        printable(left),
        printable(right),
        is_binary_operator(operator.kind),
        expression_tokens(
            ExprView::Infix { left: Box::new(left), operator, right: Box::new(right) },
        ).len() == expression_tokens(left).len() + expression_tokens(right).len() + 3,
        token_at(tokens, pos) == Some(plain(TokenKind::LParent)),
        stands_at(tokens, pos + 1, expression_tokens(left)),
        token_at(tokens, pos + 1 + expression_tokens(left).len()) == Some(operator),
        stands_at(tokens, pos + 2 + expression_tokens(left).len(), expression_tokens(right)),
        token_at(
            tokens,
            pos + 2 + expression_tokens(left).len() + expression_tokens(right).len(),
        ) == Some(plain(TokenKind::RParent)),
{
    reveal(printable);
    reveal(expression_tokens);
    reveal(printable_statement);
    reveal(statement_tokens);
    let e = ExprView::Infix { left: Box::new(left), operator, right: Box::new(right) };
    let open = seq![plain(TokenKind::LParent)];
    let first = expression_tokens(left);
    let middle = seq![operator];
    let second = expression_tokens(right);
    let close = seq![plain(TokenKind::RParent)];
    assert(expression_tokens(e) == open + first + middle + second + close);
    lemma_stands_split(tokens, pos, open + first + middle + second, close);
    lemma_stands_split(tokens, pos, open + first + middle, second);
    lemma_stands_split(tokens, pos, open + first, middle);
    lemma_stands_split(tokens, pos, open, first);
    lemma_stands_token(tokens, pos, open, 0);
    lemma_stands_token(tokens, pos + 1 + first.len(), middle, 0);
    lemma_stands_token(tokens, pos + 2 + first.len() + second.len(), close, 0);
}

/// The tokens of a condition between parentheses and of the block behind it.
pub open spec fn guarded_tokens(condition: ExprView, consequence: Seq<StmtView>) -> Seq<
    TokenView,
> {
    seq![plain(TokenKind::LParent)] + expression_tokens(condition) + seq![
        plain(TokenKind::RParent),
    ] + braced(consequence)
}

/// How the tokens of a condition and of the block behind it lie.
proof fn lemma_guarded_shape(
    tokens: Seq<TokenView>,
    pos: int,
    condition: ExprView,
    consequence: Seq<StmtView>,
)
    requires
        stands_at(tokens, pos, guarded_tokens(condition, consequence)),
    ensures
        guarded_tokens(condition, consequence).len() == expression_tokens(condition).len() + 2
            + braced(consequence).len(),
        token_at(tokens, pos) == Some(plain(TokenKind::LParent)),
        stands_at(tokens, pos + 1, expression_tokens(condition)),
        token_at(tokens, pos + 1 + expression_tokens(condition).len()) == Some(
            plain(TokenKind::RParent),
        ),
        stands_at(tokens, pos + 2 + expression_tokens(condition).len(), braced(consequence)),
{
    let test = expression_tokens(condition);
    let block = braced(consequence);
    lemma_stands_split(
        tokens,
        pos,
        seq![plain(TokenKind::LParent)] + test + seq![plain(TokenKind::RParent)],
        block,
    );
    lemma_stands_inside(tokens, pos, plain(TokenKind::LParent), test, plain(TokenKind::RParent));
}

/// How the tokens of a conditional lie.
proof fn lemma_if_shape(
    tokens: Seq<TokenView>,
    pos: int,
    condition: ExprView,
    consequence: Seq<StmtView>,
    alternative: Option<Seq<StmtView>>,
)
    requires
        printable(ExprView::If { condition: Box::new(condition), consequence, alternative }),
        stands_at(
            tokens,
            pos,
            expression_tokens(
                ExprView::If { condition: Box::new(condition), consequence, alternative },
            ),
        ),
    ensures
        printable(condition),
        printable_block(consequence),
        token_at(tokens, pos) == Some(plain(TokenKind::If)),
        stands_at(tokens, pos + 1, guarded_tokens(condition, consequence)),
        match alternative {
            Some(other) => {
                &&& printable_block(other)
                &&& token_at(tokens, pos + 1 + guarded_tokens(condition, consequence).len())
                    == Some(plain(TokenKind::Else))
                &&& stands_at(
                    tokens,
                    pos + 2 + guarded_tokens(condition, consequence).len(),
                    braced(other),
                )
                &&& expression_tokens(
                    ExprView::If { condition: Box::new(condition), consequence, alternative },
                ).len() == guarded_tokens(condition, consequence).len() + 2 + braced(other).len()
            },
            None => expression_tokens(
                ExprView::If { condition: Box::new(condition), consequence, alternative },
            ).len() == guarded_tokens(condition, consequence).len() + 1,
        },
{
    reveal(printable);
    reveal(expression_tokens);
    reveal(printable_statement);
    reveal(statement_tokens);
    let e = ExprView::If { condition: Box::new(condition), consequence, alternative };
    let open = seq![plain(TokenKind::If)];
    let guarded = guarded_tokens(condition, consequence);
    let head = seq![plain(TokenKind::If), plain(TokenKind::LParent)] + expression_tokens(
        condition,
    ) + seq![plain(TokenKind::RParent)] + braced(consequence);
    assert(head =~= open + guarded);
    match alternative {
        Some(other) => {
            let otherwise = seq![plain(TokenKind::Else)];
            let second = braced(other);
            assert(expression_tokens(e) == head + otherwise + second);
            lemma_stands_split(tokens, pos, head + otherwise, second);
            lemma_stands_split(tokens, pos, head, otherwise);
            lemma_stands_token(tokens, pos + head.len(), otherwise, 0);
        },
        None => {
            assert(expression_tokens(e) == head);
        },
    }
    lemma_stands_split(tokens, pos, open, guarded);
    lemma_stands_token(tokens, pos, open, 0);
}

/// How the tokens of a loop lie.
proof fn lemma_while_shape(
    tokens: Seq<TokenView>,
    pos: int,
    condition: ExprView,
    consequence: Seq<StmtView>,
)
    requires
        printable(ExprView::While { condition: Box::new(condition), consequence }),
        stands_at(
            tokens,
            pos,
            expression_tokens(ExprView::While { condition: Box::new(condition), consequence }),
        ),
    ensures
        printable(condition),
        printable_block(consequence),
        token_at(tokens, pos) == Some(plain(TokenKind::While)),
        stands_at(tokens, pos + 1, guarded_tokens(condition, consequence)),
        expression_tokens(
            ExprView::While { condition: Box::new(condition), consequence },
        ).len() == guarded_tokens(condition, consequence).len() + 1,
{
    reveal(printable);
    reveal(expression_tokens);
    reveal(printable_statement);
    reveal(statement_tokens);
    let e = ExprView::While { condition: Box::new(condition), consequence };
    let open = seq![plain(TokenKind::While)];
    let guarded = guarded_tokens(condition, consequence);
    assert(expression_tokens(e) =~= open + guarded);
    lemma_stands_split(tokens, pos, open, guarded);
    lemma_stands_token(tokens, pos, open, 0);
}

/// How the tokens of a function literal lie.
proof fn lemma_function_shape(
    tokens: Seq<TokenView>,
    pos: int,
    parameters: Seq<Seq<char>>,
    body: Seq<StmtView>,
)
    requires
        printable(ExprView::Function { parameters, body }),
        stands_at(tokens, pos, expression_tokens(ExprView::Function { parameters, body })),
    ensures
        printable_block(body),
        token_at(tokens, pos) == Some(plain(TokenKind::Function)),
        stands_at(tokens, pos + 1, parameter_group(parameters)),
        stands_at(tokens, pos + 1 + parameter_group(parameters).len(), braced(body)),
        expression_tokens(ExprView::Function { parameters, body }).len() == 1 + parameter_group(
            parameters,
        ).len() + braced(body).len(),
{
    reveal(printable);
    reveal(expression_tokens);
    reveal(printable_statement);
    reveal(statement_tokens);
    let e = ExprView::Function { parameters, body };
    let open = seq![plain(TokenKind::Function)];
    let names = parameter_group(parameters);
    let block = braced(body);
    assert(expression_tokens(e) == open + names + block);
    lemma_stands_split(tokens, pos, open + names, block);
    lemma_stands_split(tokens, pos, open, names);
    lemma_stands_token(tokens, pos, open, 0);
}

/// How the tokens of a call lie.
proof fn lemma_call_shape(
    tokens: Seq<TokenView>,
    pos: int,
    function: ExprView,
    arguments: Seq<ExprView>,
)
    requires
        printable(ExprView::Call { function: Box::new(function), arguments }),
        stands_at(
            tokens,
            pos,
            expression_tokens(ExprView::Call { function: Box::new(function), arguments }),
        ),
    ensures
        printable(function),
        printable_list(arguments),
        stands_at(tokens, pos, expression_tokens(function)),
        stands_at(
            tokens,
            pos + expression_tokens(function).len(),
            argument_group(arguments),
        ),
        token_at(tokens, pos + expression_tokens(function).len()) == Some(
            plain(TokenKind::LParent),
        ),
        expression_tokens(ExprView::Call { function: Box::new(function), arguments }).len()
            == expression_tokens(function).len() + argument_group(arguments).len(),
{
    reveal(printable);
    reveal(expression_tokens);
    reveal(printable_statement);
    reveal(statement_tokens);
    let e = ExprView::Call { function: Box::new(function), arguments };
    let callee = expression_tokens(function);
    let group = argument_group(arguments);
    assert(expression_tokens(e) == callee + group);
    lemma_stands_split(tokens, pos, callee, group);
    lemma_stands_token(tokens, pos + callee.len(), group, 0);
}

/// How the tokens of a `let` statement lie.
proof fn lemma_let_shape(tokens: Seq<TokenView>, pos: int, name: Seq<char>, value: ExprView)
    requires
        printable_statement(StmtView::Let { name, value }),
        stands_at(tokens, pos, statement_tokens(StmtView::Let { name, value })),
    ensures
        printable(value),
        token_at(tokens, pos) == Some(plain(TokenKind::Let)),
        token_at(tokens, pos + 1) == Some(identifier_token(name)),
        token_at(tokens, pos + 2) == Some(plain(TokenKind::Assign)),
        stands_at(tokens, pos + 3, expression_tokens(value)),
        token_at(tokens, pos + 3 + expression_tokens(value).len()) == Some(
            plain(TokenKind::Semicolon),
        ),
        statement_tokens(StmtView::Let { name, value }).len() == expression_tokens(value).len()
            + 4,
{
    reveal(printable_statement);
    reveal(statement_tokens);
    reveal(printable);
    reveal(expression_tokens);
    let open = seq![plain(TokenKind::Let), identifier_token(name), plain(TokenKind::Assign)];
    let inner = expression_tokens(value);
    let close = seq![plain(TokenKind::Semicolon)];
    lemma_stands_split(tokens, pos, open + inner, close);
    lemma_stands_split(tokens, pos, open, inner);
    lemma_stands_token(tokens, pos, open, 0);
    lemma_stands_token(tokens, pos, open, 1);
    lemma_stands_token(tokens, pos, open, 2);
    lemma_stands_token(tokens, pos + 3 + inner.len(), close, 0);
}

/// How the tokens of a `ret` statement lie.
proof fn lemma_return_shape(tokens: Seq<TokenView>, pos: int, value: ExprView)
    requires
        printable_statement(StmtView::Return { value }),
        stands_at(tokens, pos, statement_tokens(StmtView::Return { value })),
    ensures
        printable(value),
        token_at(tokens, pos) == Some(plain(TokenKind::Return)),
        stands_at(tokens, pos + 1, expression_tokens(value)),
        token_at(tokens, pos + 1 + expression_tokens(value).len()) == Some(
            plain(TokenKind::Semicolon),
        ),
        statement_tokens(StmtView::Return { value }).len() == expression_tokens(value).len() + 2,
{
    reveal(printable_statement);
    reveal(statement_tokens);
    reveal(printable);
    reveal(expression_tokens);
    let inner = expression_tokens(value);
    lemma_stands_inside(tokens, pos, plain(TokenKind::Return), inner, plain(TokenKind::Semicolon));
}

/// How the tokens of an expression statement lie.
proof fn lemma_expression_statement_shape(tokens: Seq<TokenView>, pos: int, expression: ExprView)
    requires
        printable_statement(StmtView::Expression { expression }),
        stands_at(tokens, pos, statement_tokens(StmtView::Expression { expression })),
    ensures
        printable(expression),
        stands_at(tokens, pos, expression_tokens(expression)),
        token_at(tokens, pos) == Some(expression_tokens(expression)[0]),
        begins_expression(expression_tokens(expression)[0].kind),
        token_at(tokens, pos + expression_tokens(expression).len()) == Some(
            plain(TokenKind::Semicolon),
        ),
        statement_tokens(StmtView::Expression { expression }).len() == expression_tokens(
            expression,
        ).len() + 1,
{
    reveal(printable_statement);
    reveal(statement_tokens);
    reveal(printable);
    reveal(expression_tokens);
    let inner = expression_tokens(expression);
    let close = seq![plain(TokenKind::Semicolon)];
    lemma_stands_split(tokens, pos, inner, close);
    lemma_stands_token(tokens, pos + inner.len(), close, 0);
    lemma_expression_begins(expression);
    lemma_stands_token(tokens, pos, inner, 0);
}

/// An expression is read back from its tokens: what `parse_expression` makes
/// of them is what the operations behind the expression make of it.
#[verifier::rlimit(100)]
pub proof fn lemma_read_expression(tokens: Seq<TokenView>, pos: int, e: ExprView, precedence: nat)
    requires
        printable(e),
        stands_at(tokens, pos, expression_tokens(e)),
        precedence < Precedences::Call.rank(),
        !is_kind(tokens, pos + expression_tokens(e).len(), TokenKind::Else),
    ensures
        parse_expression(tokens, pos, precedence) == parse_operations(
            tokens,
            pos + expression_tokens(e).len(),
            e,
            precedence,
        ),
        pos < pos + expression_tokens(e).len() <= tokens.len(),
    decreases e, 4nat,
{
    lemma_expression_begins(e);
    lemma_stands_within(tokens, pos, expression_tokens(e));
    match e {
        ExprView::Call { function, arguments } => {
            lemma_call_shape(tokens, pos, *function, arguments);
            let at_group = pos + expression_tokens(*function).len();
            lemma_read_expression(tokens, pos, *function, precedence);
            lemma_read_call_arguments(tokens, at_group, arguments);
            assert(parse_operations(tokens, at_group, *function, precedence) == parse_operations(
                tokens,
                at_group + argument_group(arguments).len(),
                e,
                precedence,
            ));
        },
        _ => {
            lemma_read_operand(tokens, pos, e);
        },
    }
}

/// An expression that is read back and behind which the operations end.
#[verifier::rlimit(100)]
pub proof fn lemma_read_whole_expression(
    tokens: Seq<TokenView>,
    pos: int,
    e: ExprView,
    precedence: nat,
)
    requires
        printable(e),
        stands_at(tokens, pos, expression_tokens(e)),
        precedence < Precedences::Call.rank(),
        !is_kind(tokens, pos + expression_tokens(e).len(), TokenKind::Else),
        ends_operations(tokens, pos + expression_tokens(e).len(), precedence),
    ensures
        parse_expression(tokens, pos, precedence) == read(e, pos + expression_tokens(e).len()),
        pos < pos + expression_tokens(e).len() <= tokens.len(),
    decreases e, 5nat,
{
    lemma_read_expression(tokens, pos, e, precedence);
    lemma_operations_end(tokens, pos + expression_tokens(e).len(), e, precedence);
}

/// A unary operation is read back from its tokens as an operand.
#[verifier::rlimit(100)]
proof fn lemma_read_prefix(tokens: Seq<TokenView>, pos: int, e: ExprView)
    requires
        printable(e),
        e is Prefix,
        stands_at(tokens, pos, expression_tokens(e)),
    ensures
        parse_operand(tokens, pos) == read(e, pos + expression_tokens(e).len()),
    decreases e, 0nat,
{
    match e {
        ExprView::Prefix { operator, right } => {
            lemma_prefix_shape(tokens, pos, operator, *right);
            let end = pos + 2 + expression_tokens(*right).len();
            lemma_read_whole_expression(tokens, pos + 2, *right, Precedences::Prefix.rank());
            assert(parse_prefix_expression(tokens, pos + 1) == read(e, end));
            assert(parse_operand(tokens, pos + 1) == read(e, end));
            lemma_operations_end(tokens, end, e, Precedences::Lowest.rank());
            assert(parse_expression(tokens, pos + 1, Precedences::Lowest.rank()) == read(e, end));
            assert(parse_grouped_expression(tokens, pos) == read(e, end + 1));
        },
        _ => {},
    }
}

/// A binary operation is read back from its tokens as an operand.
#[verifier::rlimit(100)]
proof fn lemma_read_infix(tokens: Seq<TokenView>, pos: int, e: ExprView)
    requires
        printable(e),
        e is Infix,
        stands_at(tokens, pos, expression_tokens(e)),
    ensures
        parse_operand(tokens, pos) == read(e, pos + expression_tokens(e).len()),
    decreases e, 0nat,
{
    match e {
        ExprView::Infix { left, operator, right } => {
            lemma_infix_shape(tokens, pos, *left, operator, *right);
            let at_operator = pos + 1 + expression_tokens(*left).len();
            let end = at_operator + 1 + expression_tokens(*right).len();
            lemma_read_expression(tokens, pos + 1, *left, Precedences::Lowest.rank());
            lemma_read_whole_expression(
                tokens,
                at_operator + 1,
                *right,
                operator.kind.precedence().rank(),
            );
            lemma_operations_end(tokens, end, e, Precedences::Lowest.rank());
            assert(parse_operations(tokens, at_operator, *left, Precedences::Lowest.rank())
                == read(e, end));
            assert(parse_expression(tokens, pos + 1, Precedences::Lowest.rank()) == read(e, end));
            assert(parse_grouped_expression(tokens, pos) == read(e, end + 1));
        },
        _ => {},
    }
}

/// Whether the grammar reads `condition` between parentheses at `pos` and
/// ends at `end`.
#[verifier::opaque]
pub open spec fn condition_is_read(
    tokens: Seq<TokenView>,
    pos: int,
    condition: ExprView,
    end: int,
) -> bool {
    parse_condition(tokens, pos) == read(condition, end)
}

/// Whether the grammar reads the block of `statements` at `pos` and ends at `end`.
#[verifier::opaque]
pub open spec fn block_is_read(
    tokens: Seq<TokenView>,
    pos: int,
    statements: Seq<StmtView>,
    end: int,
) -> bool {
    parse_block_statement(tokens, pos) == read(statements, end)
}

/// Whether `e` is a conditional or a loop with this condition and this
/// block behind it.
pub open spec fn guards(e: ExprView, condition: ExprView, consequence: Seq<StmtView>) -> bool {
    match e {
        ExprView::If { condition: test, consequence: block, .. } => *test == condition && block
            == consequence,
        ExprView::While { condition: test, consequence: block } => *test == condition && block
            == consequence,
        _ => false,
    }
}

/// A condition between parentheses and the block behind it are read back
/// from their tokens.
#[verifier::rlimit(100)]
proof fn lemma_read_guarded_block(
    tokens: Seq<TokenView>,
    pos: int,
    e: ExprView,
    condition: ExprView,
    consequence: Seq<StmtView>,
)
    requires
        guards(e, condition, consequence),
        printable(condition),
        printable_block(consequence),
        stands_at(tokens, pos, guarded_tokens(condition, consequence)),
    ensures
        condition_is_read(tokens, pos, condition, pos + 2 + expression_tokens(condition).len()),
        pos < pos + 2 + expression_tokens(condition).len() <= tokens.len(),
        block_is_read(
            tokens,
            pos + 2 + expression_tokens(condition).len(),
            consequence,
            pos + guarded_tokens(condition, consequence).len(),
        ),
        pos + 2 + expression_tokens(condition).len() < pos + guarded_tokens(
            condition,
            consequence,
        ).len() <= tokens.len(),
    decreases e, 1nat,
{
    lemma_guarded_shape(tokens, pos, condition, consequence);
    lemma_read_condition(tokens, pos, e, condition);
    lemma_read_sealed_block(
        tokens,
        pos + 2 + expression_tokens(condition).len(),
        e,
        consequence,
    );
    lemma_stands_within(
        tokens,
        pos + 2 + expression_tokens(condition).len(),
        braced(consequence),
    );
}

/// Whether `e` is a conditional or a loop with this condition.
pub open spec fn tests(e: ExprView, condition: ExprView) -> bool {
    match e {
        ExprView::If { condition: test, .. } => *test == condition,
        ExprView::While { condition: test, .. } => *test == condition,
        _ => false,
    }
}

/// Whether `block` is a block of the conditional or the loop `e`.
pub open spec fn holds_block(e: ExprView, block: Seq<StmtView>) -> bool {
    match e {
        ExprView::If { consequence, alternative, .. } => consequence == block || alternative
            == Some(block),
        ExprView::While { consequence, .. } => consequence == block,
        _ => false,
    }
}

/// A condition between parentheses is read back from its tokens.
#[verifier::rlimit(100)]
proof fn lemma_read_condition(tokens: Seq<TokenView>, pos: int, e: ExprView, condition: ExprView)
    requires
        tests(e, condition),
        printable(condition),
        token_at(tokens, pos) == Some(plain(TokenKind::LParent)),
        stands_at(tokens, pos + 1, expression_tokens(condition)),
        token_at(tokens, pos + 1 + expression_tokens(condition).len()) == Some(
            plain(TokenKind::RParent),
        ),
    ensures
        condition_is_read(tokens, pos, condition, pos + 2 + expression_tokens(condition).len()),
        pos < pos + 2 + expression_tokens(condition).len() <= tokens.len(),
    decreases e, 0nat,
{
    reveal(condition_is_read);
    lemma_read_whole_expression(tokens, pos + 1, condition, Precedences::Lowest.rank());
}

/// A block of a conditional or a loop is read back from its tokens.
#[verifier::rlimit(100)]
proof fn lemma_read_sealed_block(
    tokens: Seq<TokenView>,
    pos: int,
    e: ExprView,
    block: Seq<StmtView>,
)
    requires
        holds_block(e, block),
        printable_block(block),
        stands_at(tokens, pos, braced(block)),
    ensures
        block_is_read(tokens, pos, block, pos + braced(block).len()),
    decreases e, 0nat,
{
    reveal(block_is_read);
    match e {
        ExprView::If { consequence, alternative, .. } => {
            if consequence == block {
                lemma_read_block(tokens, pos, consequence);
            } else {
                match alternative {
                    Some(other) => {
                        lemma_read_block(tokens, pos, other);
                    },
                    None => {},
                }
            }
        },
        ExprView::While { consequence, .. } => {
            lemma_read_block(tokens, pos, consequence);
        },
        _ => {},
    }
}

/// What the parser makes of a conditional, given what it makes of its parts.
proof fn lemma_if_step(
    tokens: Seq<TokenView>,
    pos: int,
    condition: ExprView,
    consequence: Seq<StmtView>,
    alternative: Option<Seq<StmtView>>,
    after_condition: int,
    after_block: int,
    end: int,
)
    requires
        token_at(tokens, pos) == Some(plain(TokenKind::If)),
        condition_is_read(tokens, pos + 1, condition, after_condition),
        pos < after_condition <= tokens.len(),
        block_is_read(tokens, after_condition, consequence, after_block),
        match alternative {
            Some(other) => {
                &&& token_at(tokens, after_block) == Some(plain(TokenKind::Else))
                &&& pos < after_block
                &&& block_is_read(tokens, after_block + 1, other, end)
            },
            None => !is_kind(tokens, after_block, TokenKind::Else) && end == after_block,
        },
    ensures
        parse_operand(tokens, pos) == read(
            ExprView::If { condition: Box::new(condition), consequence, alternative },
            end,
        ),
{
    reveal(condition_is_read);
    reveal(block_is_read);
    assert(parse_operand(tokens, pos) == parse_if_expression(tokens, pos));
}

/// A conditional is read back from its tokens as an operand.
#[verifier::rlimit(100)]
proof fn lemma_read_if(tokens: Seq<TokenView>, pos: int, e: ExprView)
    requires
        printable(e),
        e is If,
        stands_at(tokens, pos, expression_tokens(e)),
        !is_kind(tokens, pos + expression_tokens(e).len(), TokenKind::Else),
    ensures
        parse_operand(tokens, pos) == read(e, pos + expression_tokens(e).len()),
    decreases e, 2nat,
{
    match e {
        ExprView::If { condition, consequence, alternative } => {
            lemma_if_shape(tokens, pos, *condition, consequence, alternative);
            lemma_read_guarded_block(tokens, pos + 1, e, *condition, consequence);
            let after_condition = pos + 3 + expression_tokens(*condition).len();
            let after_block = pos + 1 + guarded_tokens(*condition, consequence).len();
            match alternative {
                Some(other) => {
                    lemma_read_sealed_block(tokens, after_block + 1, e, other);
                },
                None => {},
            }
            lemma_if_step(
                tokens,
                pos,
                *condition,
                consequence,
                alternative,
                after_condition,
                after_block,
                pos + expression_tokens(e).len(),
            );
        },
        _ => {},
    }
}

/// What the parser makes of a loop, given what it makes of its parts.
proof fn lemma_while_step(
    tokens: Seq<TokenView>,
    pos: int,
    condition: ExprView,
    consequence: Seq<StmtView>,
    after_condition: int,
    end: int,
)
    requires
        token_at(tokens, pos) == Some(plain(TokenKind::While)),
        condition_is_read(tokens, pos + 1, condition, after_condition),
        pos < after_condition <= tokens.len(),
        block_is_read(tokens, after_condition, consequence, end),
    ensures
        parse_operand(tokens, pos) == read(
            ExprView::While { condition: Box::new(condition), consequence },
            end,
        ),
{
    reveal(condition_is_read);
    reveal(block_is_read);
    assert(parse_operand(tokens, pos) == parse_while_expression(tokens, pos));
}

/// A loop is read back from its tokens as an operand.
#[verifier::rlimit(100)]
proof fn lemma_read_while(tokens: Seq<TokenView>, pos: int, e: ExprView)
    requires
        printable(e),
        e is While,
        stands_at(tokens, pos, expression_tokens(e)),
    ensures
        parse_operand(tokens, pos) == read(e, pos + expression_tokens(e).len()),
    decreases e, 2nat,
{
    match e {
        ExprView::While { condition, consequence } => {
            lemma_while_shape(tokens, pos, *condition, consequence);
            lemma_read_guarded_block(tokens, pos + 1, e, *condition, consequence);
            lemma_while_step(
                tokens,
                pos,
                *condition,
                consequence,
                pos + 3 + expression_tokens(*condition).len(),
                pos + expression_tokens(e).len(),
            );
        },
        _ => {},
    }
}

/// A function literal is read back from its tokens as an operand.
#[verifier::rlimit(100)]
proof fn lemma_read_function(tokens: Seq<TokenView>, pos: int, e: ExprView)
    requires
        printable(e),
        e is Function,
        stands_at(tokens, pos, expression_tokens(e)),
    ensures
        parse_operand(tokens, pos) == read(e, pos + expression_tokens(e).len()),
    decreases e, 0nat,
{
    match e {
        ExprView::Function { parameters, body } => {
            lemma_function_shape(tokens, pos, parameters, body);
            let names = parameter_group(parameters);
            lemma_read_parameters(tokens, pos + 1, parameters);
            lemma_read_block(tokens, pos + 1 + names.len(), body);
            let list = parse_parameters(tokens, pos + 1);
            let inner = parse_block_statement(tokens, list.position);
            assert(inner == read(body, pos + expression_tokens(e).len()));
            assert(parse_function_expression(tokens, pos) == read(e, inner.position));
            assert(parse_operand(tokens, pos) == parse_function_expression(tokens, pos));
        },
        _ => {},
    }
}

/// An expression that is no call is read back from its tokens as an operand.
#[verifier::rlimit(100)]
pub proof fn lemma_read_operand(tokens: Seq<TokenView>, pos: int, e: ExprView)
    requires
        printable(e),
        !(e is Call),
        stands_at(tokens, pos, expression_tokens(e)),
        !is_kind(tokens, pos + expression_tokens(e).len(), TokenKind::Else),
    ensures
        parse_operand(tokens, pos) == read(e, pos + expression_tokens(e).len()),
    decreases e, 3nat,
{
    match e {
        ExprView::Identifier { .. }
        | ExprView::Integer { .. }
        | ExprView::String { .. }
        | ExprView::Boolean { .. } => {
            lemma_atom_shape(tokens, pos, e);
        },
        ExprView::Prefix { .. } => lemma_read_prefix(tokens, pos, e),
        ExprView::Infix { .. } => lemma_read_infix(tokens, pos, e),
        ExprView::If { .. } => lemma_read_if(tokens, pos, e),
        ExprView::Function { .. } => lemma_read_function(tokens, pos, e),
        ExprView::While { .. } => lemma_read_while(tokens, pos, e),
        _ => {
            reveal(printable);
        },
    }
}

/// The arguments of a call behind the first `count` are read back from their tokens.
#[verifier::rlimit(100)]
pub proof fn lemma_read_more_arguments(
    tokens: Seq<TokenView>,
    base: int,
    arguments: Seq<ExprView>,
    count: int,
)
    requires
        printable_list(arguments),
        stands_at(
            tokens,
            base,
            arguments_tokens(arguments, arguments.len()) + seq![plain(TokenKind::RParent)],
        ),
        1 <= count <= arguments.len(),
    ensures
        parse_more_arguments(
            tokens,
            base + arguments_tokens(arguments, count as nat).len(),
            arguments.take(count),
        ) == read(arguments, base + arguments_tokens(arguments, arguments.len()).len() + 1),
    decreases arguments, arguments.len() - count,
{
    let all = arguments_tokens(arguments, arguments.len());
    let close = seq![plain(TokenKind::RParent)];
    lemma_stands_split(tokens, base, all, close);
    lemma_stands_token(tokens, base + all.len(), close, 0);
    lemma_arguments_part(tokens, base, arguments, count);
    let here = base + arguments_tokens(arguments, count as nat).len();
    if count == arguments.len() {
        assert(arguments.take(count) =~= arguments);
    } else {
        let next = arguments[count];
        let end = here + 1 + expression_tokens(next).len();
        lemma_list_element(arguments, count);
        lemma_expression_begins(next);
        lemma_stands_token(tokens, here + 1, expression_tokens(next), 0);
        lemma_arguments_part(tokens, base, arguments, count + 1);
        assert(is_kind(tokens, end, TokenKind::Comma) || is_kind(tokens, end, TokenKind::RParent));
        lemma_read_whole_expression(tokens, here + 1, next, Precedences::Lowest.rank());
        assert(arguments.take(count).push(next) =~= arguments.take(count + 1));
        lemma_read_more_arguments(tokens, base, arguments, count + 1);
    }
}

/// The arguments of a call are read back from their tokens.
#[verifier::rlimit(100)]
pub proof fn lemma_read_call_arguments(tokens: Seq<TokenView>, pos: int, arguments: Seq<ExprView>)
    requires
        printable_list(arguments),
        stands_at(tokens, pos, argument_group(arguments)),
    ensures
        parse_call_arguments(tokens, pos) == read(arguments, pos + argument_group(arguments).len()),
        pos < pos + argument_group(arguments).len() <= tokens.len(),
    decreases arguments, arguments.len() + 1,
{
    let all = arguments_tokens(arguments, arguments.len());
    lemma_stands_inside(tokens, pos, plain(TokenKind::LParent), all, plain(TokenKind::RParent));
    if arguments.len() == 0 {
        assert(arguments =~= Seq::empty());
    } else {
        let first = arguments[0];
        lemma_list_element(arguments, 0);
        lemma_arguments_part(tokens, pos + 1, arguments, 0);
        lemma_arguments_part(tokens, pos + 1, arguments, 1);
        lemma_expression_begins(first);
        lemma_stands_token(tokens, pos + 1, expression_tokens(first), 0);
        let end = pos + 1 + expression_tokens(first).len();
        assert(is_kind(tokens, end, TokenKind::Comma) || is_kind(tokens, end, TokenKind::RParent));
        lemma_read_whole_expression(tokens, pos + 1, first, Precedences::Lowest.rank());
        assert(arguments.take(1) =~= seq![first]);
        lemma_read_more_arguments(tokens, pos + 1, arguments, 1);
    }
}

/// A `let` statement is read back from its tokens.
#[verifier::rlimit(100)]
proof fn lemma_read_let_statement(tokens: Seq<TokenView>, pos: int, s: StmtView)
    requires
        printable_statement(s),
        s is Let,
        stands_at(tokens, pos, statement_tokens(s)),
    ensures
        parse_statement(tokens, pos) == read(s, pos + statement_tokens(s).len()),
    decreases s, 0nat,
{
    match s {
        StmtView::Let { name, value } => {
            lemma_let_shape(tokens, pos, name, value);
            let end = pos + 3 + expression_tokens(value).len();
            lemma_read_whole_expression(tokens, pos + 3, value, Precedences::Lowest.rank());
            assert(parse_identifier(tokens, pos + 1) == read(name, pos + 2));
            assert(parse_let_statement(tokens, pos) == read(s, end + 1));
        },
        _ => {},
    }
}

/// A `ret` statement is read back from its tokens.
#[verifier::rlimit(100)]
proof fn lemma_read_return_statement(tokens: Seq<TokenView>, pos: int, s: StmtView)
    requires
        printable_statement(s),
        s is Return,
        stands_at(tokens, pos, statement_tokens(s)),
    ensures
        parse_statement(tokens, pos) == read(s, pos + statement_tokens(s).len()),
    decreases s, 0nat,
{
    match s {
        StmtView::Return { value } => {
            lemma_return_shape(tokens, pos, value);
            let end = pos + 1 + expression_tokens(value).len();
            lemma_read_whole_expression(tokens, pos + 1, value, Precedences::Lowest.rank());
            assert(parse_return_statement(tokens, pos) == read(s, end + 1));
        },
        _ => {},
    }
}

/// An expression statement is read back from its tokens.
#[verifier::rlimit(100)]
proof fn lemma_read_expression_statement(tokens: Seq<TokenView>, pos: int, s: StmtView)
    requires
        printable_statement(s),
        s is Expression,
        stands_at(tokens, pos, statement_tokens(s)),
    ensures
        parse_statement(tokens, pos) == read(s, pos + statement_tokens(s).len()),
    decreases s, 0nat,
{
    match s {
        StmtView::Expression { expression } => {
            lemma_expression_statement_shape(tokens, pos, expression);
            let end = pos + expression_tokens(expression).len();
            lemma_read_whole_expression(tokens, pos, expression, Precedences::Lowest.rank());
            assert(parse_expression_statement(tokens, pos) == read(s, end + 1));
        },
        _ => {},
    }
}

/// A statement is read back from its tokens.
#[verifier::rlimit(100)]
pub proof fn lemma_read_statement(tokens: Seq<TokenView>, pos: int, s: StmtView)
    requires
        printable_statement(s),
        stands_at(tokens, pos, statement_tokens(s)),
    ensures
        parse_statement(tokens, pos) == read(s, pos + statement_tokens(s).len()),
        pos < pos + statement_tokens(s).len() <= tokens.len(),
    decreases s, 1nat,
{
    lemma_statement_begins(s);
    lemma_stands_within(tokens, pos, statement_tokens(s));
    match s {
        StmtView::Let { .. } => lemma_read_let_statement(tokens, pos, s),
        StmtView::Return { .. } => lemma_read_return_statement(tokens, pos, s),
        StmtView::Expression { .. } => lemma_read_expression_statement(tokens, pos, s),
        StmtView::Block { .. } => {
            reveal(printable_statement);
        },
    }
}

/// What the grammar makes of the rest of a block whose next statement it reads.
proof fn lemma_block_rest_step(
    tokens: Seq<TokenView>,
    pos: int,
    list: Seq<StmtView>,
    statement: StmtView,
    end: int,
)
    requires
        token_at(tokens, pos) matches Some(token) && token.kind != TokenKind::RBrace,
        parse_statement(tokens, pos) == read(statement, end),
        pos < end <= tokens.len(),
    ensures
        parse_block_rest(tokens, pos, list) == parse_block_rest(tokens, end, list.push(statement)),
{
}

/// What the grammar makes of the rest of a block at its closing brace.
proof fn lemma_block_rest_end(tokens: Seq<TokenView>, pos: int, list: Seq<StmtView>)
    requires
        token_at(tokens, pos) == Some(plain(TokenKind::RBrace)),
    ensures
        parse_block_rest(tokens, pos, list) == read(list, pos + 1),
{
}

/// The statements of a block behind the first `count` are read back from
/// their tokens.
#[verifier::rlimit(100)]
pub proof fn lemma_read_block_rest(
    tokens: Seq<TokenView>,
    base: int,
    statements: Seq<StmtView>,
    count: int,
)
    requires
        printable_block(statements),
        stands_at(
            tokens,
            base,
            block_tokens(statements, statements.len()) + seq![plain(TokenKind::RBrace)],
        ),
        0 <= count <= statements.len(),
    ensures
        parse_block_rest(
            tokens,
            base + block_tokens(statements, count as nat).len(),
            statements.take(count),
        ) == read(statements, base + block_tokens(statements, statements.len()).len() + 1),
    decreases statements, statements.len() - count,
{
    let all = block_tokens(statements, statements.len());
    let close = seq![plain(TokenKind::RBrace)];
    lemma_stands_split(tokens, base, all, close);
    lemma_stands_token(tokens, base + all.len(), close, 0);
    lemma_block_part(tokens, base, statements, count);
    let here = base + block_tokens(statements, count as nat).len();
    if count == statements.len() {
        assert(statements.take(count) =~= statements);
        lemma_block_rest_end(tokens, here, statements.take(count));
    } else {
        let next = statements[count];
        lemma_block_element(statements, count);
        lemma_statement_begins(next);
        lemma_stands_token(tokens, here, statement_tokens(next), 0);
        lemma_read_statement(tokens, here, next);
        assert(statements.take(count).push(next) =~= statements.take(count + 1));
        lemma_read_block_rest(tokens, base, statements, count + 1);
        lemma_block_rest_step(
            tokens,
            here,
            statements.take(count),
            next,
            here + statement_tokens(next).len(),
        );
    }
}

/// A block is read back from its tokens.
#[verifier::rlimit(100)]
pub proof fn lemma_read_block(tokens: Seq<TokenView>, pos: int, statements: Seq<StmtView>)
    requires
        printable_block(statements),
        stands_at(tokens, pos, braced(statements)),
    ensures
        parse_block_statement(tokens, pos) == read(statements, pos + braced(statements).len()),
        pos < pos + braced(statements).len() <= tokens.len(),
    decreases statements, statements.len() + 1,
{
    let all = block_tokens(statements, statements.len());
    lemma_stands_inside(tokens, pos, plain(TokenKind::LBrace), all, plain(TokenKind::RBrace));
    lemma_block_part(tokens, pos + 1, statements, 0);
    assert(statements.take(0) =~= Seq::empty());
    lemma_read_block_rest(tokens, pos + 1, statements, 0);
}

} // verus!

verus! {

/// The statements of a program behind the first `count` are read back from
/// their tokens, which the end marker follows.
#[verifier::rlimit(100)]
proof fn lemma_read_program_rest(tokens: Seq<TokenView>, statements: Seq<StmtView>, count: int)
    requires
        printable_block(statements),
        stands_at(
            tokens,
            0,
            block_tokens(statements, statements.len()) + seq![plain(TokenKind::Eof)],
        ),
        0 <= count <= statements.len(),
    ensures
        parse_program(
            tokens,
            block_tokens(statements, count as nat).len() as int,
            statements.take(count),
        ) == read(statements, block_tokens(statements, statements.len()).len() as int),
    decreases statements.len() - count,
{
    let all = block_tokens(statements, statements.len());
    let close = seq![plain(TokenKind::Eof)];
    lemma_stands_split(tokens, 0, all, close);
    lemma_stands_token(tokens, all.len() as int, close, 0);
    lemma_block_part(tokens, 0, statements, count);
    let here = block_tokens(statements, count as nat).len() as int;
    if count == statements.len() {
        assert(statements.take(count) =~= statements);
    } else {
        let next = statements[count];
        lemma_block_element(statements, count);
        lemma_statement_begins(next);
        lemma_stands_token(tokens, here, statement_tokens(next), 0);
        lemma_read_statement(tokens, here, next);
        assert(statements.take(count).push(next) =~= statements.take(count + 1));
        lemma_read_program_rest(tokens, statements, count + 1);
    }
}

/// The tokens of a program: those of its statements, and the end marker.
pub open spec fn program_tokens(statements: Seq<StmtView>) -> Seq<TokenView> {
    block_tokens(statements, statements.len()) + seq![plain(TokenKind::Eof)]
}

/// A printable expression is read back from the tokens of its source text:
/// parsing them gives the expression itself, so what is parsed evaluates to
/// what the expression evaluates to.
pub proof fn lemma_expression_round_trip(e: ExprView, precedence: nat)
    requires
        printable(e),
        precedence < Precedences::Call.rank(),
    ensures
        parse_expression(
            expression_tokens(e) + seq![plain(TokenKind::Eof)],
            0,
            precedence,
        ) == read(e, expression_tokens(e).len() as int),
{
    let part = expression_tokens(e);
    let close = seq![plain(TokenKind::Eof)];
    let tokens = part + close;
    assert(stands_at(tokens, 0, tokens)) by {
        reveal(stands_at);
    }
    lemma_stands_split(tokens, 0, part, close);
    lemma_stands_token(tokens, part.len() as int, close, 0);
    lemma_read_whole_expression(tokens, 0, e, precedence);
}

/// A program of printable statements is read back from the tokens of its
/// source text: parsing them gives the statements themselves, so the program
/// that is parsed evaluates to what the program evaluates to.
pub proof fn lemma_program_round_trip(statements: Seq<StmtView>)
    requires
        printable_block(statements),
    ensures
        parse_program(program_tokens(statements), 0, Seq::empty()) == read(
            statements,
            block_tokens(statements, statements.len()).len() as int,
        ),
{
    let tokens = program_tokens(statements);
    assert(stands_at(tokens, 0, tokens)) by {
        reveal(stands_at);
    }
    lemma_stands_split(
        tokens,
        0,
        block_tokens(statements, statements.len()),
        seq![plain(TokenKind::Eof)],
    );
    lemma_block_part(tokens, 0, statements, 0);
    assert(statements.take(0) =~= Seq::empty());
    lemma_read_program_rest(tokens, statements, 0);
}

} // verus!
