//! Expressions, statements and programs as source text.

use crate::ast::expression::{
    expressions_view, names_view, AssignExpression, Boolean, CallExpression, ErrorExpression,
    ExprView, Expression, FunctionExpression, Identifier, IfExpression, InfixExpression, Integer,
    PrefixExpression, StringExpression, WhileExpression,
};
use crate::ast::statement::{
    statements_view, BlockStatement, ExpressionStatement, LetStatement, ReturnStatement,
    Statement, StmtView,
};
use crate::parser::program::Program;
use vstd::prelude::*;
use vstd::string::StringExecFns;

verus! {

/// The first `count` names of a parameter list, separated by commas.
pub open spec fn names_text(names: Seq<Seq<char>>, count: nat) -> Seq<char>
    decreases count,
{
    if count == 0 || count > names.len() {
        Seq::empty()
    } else if count == 1 {
        names[0]
    } else {
        names_text(names, (count - 1) as nat) + ","@ + names[count - 1]
    }
}

/// An expression as source text: operations stand between parentheses.
pub open spec fn expression_text(e: ExprView) -> Seq<char>
    decreases e, 0nat,
{
    match e {
        ExprView::Identifier { name } => name,
        ExprView::Integer { digits } => digits,
        ExprView::String { text } => "\""@ + text + "\""@,
        ExprView::Boolean { val } => if val {
            "true"@
        } else {
            "false"@
        },
        ExprView::Prefix { operator, right } => "("@ + operator.shown() + expression_text(*right)
            + ")"@,
        ExprView::Infix { left, operator, right } => "("@ + expression_text(*left) + " "@
            + operator.shown() + " "@ + expression_text(*right) + ")"@,
        ExprView::If { condition, consequence, alternative } => match alternative {
            Some(other) => "if ("@ + expression_text(*condition) + ") { "@ + block_text(
                consequence,
                consequence.len(),
            ) + " } else { "@ + block_text(other, other.len()) + " }"@,
            None => "if ("@ + expression_text(*condition) + ") { "@ + block_text(
                consequence,
                consequence.len(),
            ) + " }"@,
        },
        ExprView::Function { parameters, body } => "fn("@ + names_text(
            parameters,
            parameters.len(),
        ) + "){ "@ + block_text(body, body.len()) + " }"@,
        ExprView::Call { function, arguments } => expression_text(*function) + "("@
            + arguments_text(arguments, arguments.len()) + ")"@,
        ExprView::Error { content } => "err: "@ + expression_text(*content),
        ExprView::Assign { name, value } => name + " = "@ + expression_text(*value) + ";"@,
        ExprView::While { condition, consequence } => "while ("@ + expression_text(*condition)
            + ") { "@ + block_text(consequence, consequence.len()) + " }"@,
    }
}

/// The first `count` expressions of a list as source text, separated by commas.
pub open spec fn arguments_text(arguments: Seq<ExprView>, count: nat) -> Seq<char>
    decreases arguments, count,
{
    if count == 0 || count > arguments.len() {
        Seq::empty()
    } else if count == 1 {
        expression_text(arguments[0])
    } else {
        arguments_text(arguments, (count - 1) as nat) + ","@ + expression_text(
            arguments[count - 1],
        )
    }
}

/// A statement as source text.
pub open spec fn statement_text(s: StmtView) -> Seq<char>
    decreases s, 0nat,
{
    match s {
        StmtView::Let { name, value } => "let "@ + name + " = "@ + expression_text(value) + ";"@,
        StmtView::Return { value } => "ret "@ + expression_text(value) + ";"@,
        StmtView::Expression { expression } => expression_text(expression) + ";"@,
        StmtView::Block { statements } => block_text(statements, statements.len()),
    }
}

/// The first `count` statements of a list as source text, separated by spaces.
pub open spec fn block_text(statements: Seq<StmtView>, count: nat) -> Seq<char>
    decreases statements, count,
{
    if count == 0 || count > statements.len() {
        Seq::empty()
    } else if count == 1 {
        statement_text(statements[0])
    } else {
        block_text(statements, (count - 1) as nat) + " "@ + statement_text(statements[count - 1])
    }
}

/// The first `count` statements of a program, each on an indented line of its own.
pub open spec fn program_lines(statements: Seq<StmtView>, count: nat) -> Seq<char>
    decreases count,
{
    if count == 0 || count > statements.len() {
        Seq::empty()
    } else {
        program_lines(statements, (count - 1) as nat) + "    "@ + statement_text(
            statements[count - 1],
        ) + "\n"@
    }
}

/// A program as text: its statements between the braces of a `program` block.
pub open spec fn program_text(statements: Seq<StmtView>) -> Seq<char> {
    "program: {\n"@ + program_lines(statements, statements.len()) + "}"@
}

/// The names of a parameter list, separated by commas.
fn names_to_string(names: &Vec<Identifier>) -> (text: String)
    ensures
        text@ == names_text(names_view(names@), names.len() as nat),
{
    let mut text = String::new();
    let mut index: usize = 0;
    while index < names.len()
        invariant
            index <= names.len(),
            text@ == names_text(names_view(names@), index as nat),
        decreases names.len() - index,
    {
        if index > 0 {
            text.append(",");
        }
        text.append(names[index].value.as_str());
        index = index + 1;
        assert(text@ =~= names_text(names_view(names@), index as nat));
    }
    text
}

/// The expressions of a list as source text, separated by commas.
fn arguments_to_string(arguments: &Vec<Expression>) -> (text: String)
    ensures
        text@ == arguments_text(expressions_view(arguments), arguments.len() as nat),
    decreases arguments,
{
    let mut text = String::new();
    let mut index: usize = 0;
    while index < arguments.len()
        invariant
            index <= arguments.len(),
            text@ == arguments_text(expressions_view(arguments), index as nat),
        decreases arguments.len() - index,
    {
        let shown = arguments[index].to_string();
        if index > 0 {
            text.append(",");
        }
        text.append(shown.as_str());
        index = index + 1;
        assert(text@ =~= arguments_text(expressions_view(arguments), index as nat));
    }
    text
}

/// The statements of a list as source text, separated by spaces.
fn statements_to_string(statements: &Vec<Statement>) -> (text: String)
    ensures
        text@ == block_text(statements_view(statements), statements.len() as nat),
    decreases statements,
{
    let mut text = String::new();
    let mut index: usize = 0;
    while index < statements.len()
        invariant
            index <= statements.len(),
            text@ == block_text(statements_view(statements), index as nat),
        decreases statements.len() - index,
    {
        let shown = statements[index].to_string();
        if index > 0 {
            text.append(" ");
        }
        text.append(shown.as_str());
        index = index + 1;
        assert(text@ =~= block_text(statements_view(statements), index as nat));
    }
    text
}

impl Identifier {
    /// The name.
    pub fn to_string(&self) -> (text: String)
        ensures
            text@ == expression_text(self.expr_view()),
    {
        self.value.clone()
    }
}

impl Integer {
    /// The literal as it was read.
    pub fn to_string(&self) -> (text: String)
        ensures
            text@ == expression_text(self@),
    {
        self.val.clone()
    }
}

impl StringExpression {
    /// The text between double quotes.
    pub fn to_string(&self) -> (text: String)
        ensures
            text@ == expression_text(self@),
    {
        String::from_str("\"").concat(self.val.as_str()).concat("\"")
    }
}

impl Boolean {
    /// `true` or `false`.
    pub fn to_string(&self) -> (text: String)
        ensures
            text@ == expression_text(self@),
    {
        if self.val {
            String::from_str("true")
        } else {
            String::from_str("false")
        }
    }
}

impl PrefixExpression {
    /// The operator and its operand between parentheses.
    pub fn to_string(&self) -> (text: String)
        ensures
            text@ == expression_text(self@),
        decreases self,
    {
        String::from_str("(").concat(self.prefix.to_string().as_str()).concat(
            self.right.to_string().as_str(),
        ).concat(")")
    }
}

impl InfixExpression {
    /// The operands around the operator, between parentheses.
    pub fn to_string(&self) -> (text: String)
        ensures
            text@ == expression_text(self@),
        decreases self,
    {
        String::from_str("(").concat(self.left.to_string().as_str()).concat(" ").concat(
            self.operator.to_string().as_str(),
        ).concat(" ").concat(self.right.to_string().as_str()).concat(")")
    }
}

impl IfExpression {
    /// The conditional as source text.
    pub fn to_string(&self) -> (text: String)
        ensures
            text@ == expression_text(self@),
        decreases self,
    {
        let head = String::from_str("if (").concat(self.condition.to_string().as_str()).concat(
            ") { ",
        ).concat(self.consequence.to_string().as_str());
        match &self.alternative {
            Some(alternative) => head.concat(" } else { ").concat(
                alternative.to_string().as_str(),
            ).concat(" }"),
            None => head.concat(" }"),
        }
    }
}

impl FunctionExpression {
    /// The function literal as source text.
    pub fn to_string(&self) -> (text: String)
        ensures
            text@ == expression_text(self@),
        decreases self,
    {
        String::from_str("fn(").concat(names_to_string(&self.parameters).as_str()).concat(
            "){ ",
        ).concat(self.body.to_string().as_str()).concat(" }")
    }
}

impl CallExpression {
    /// The callee, and the arguments between parentheses.
    pub fn to_string(&self) -> (text: String)
        ensures
            text@ == expression_text(self@),
        decreases self,
    {
        self.function.to_string().concat("(").concat(
            arguments_to_string(&self.arguments).as_str(),
        ).concat(")")
    }
}

impl ErrorExpression {
    /// The content behind `err: `.
    pub fn to_string(&self) -> (text: String)
        ensures
            text@ == expression_text(self@),
        decreases self,
    {
        String::from_str("err: ").concat(self.content.to_string().as_str())
    }
}

impl AssignExpression {
    /// The assignment as source text.
    pub fn to_string(&self) -> (text: String)
        ensures
            text@ == expression_text(self@),
        decreases self,
    {
        self.name.value.clone().concat(" = ").concat(self.value.to_string().as_str()).concat(";")
    }
}

impl WhileExpression {
    /// The loop as source text.
    pub fn to_string(&self) -> (text: String)
        ensures
            text@ == expression_text(self@),
        decreases self,
    {
        String::from_str("while (").concat(self.condition.to_string().as_str()).concat(
            ") { ",
        ).concat(self.consequence.to_string().as_str()).concat(" }")
    }
}

impl Expression {
    /// The expression as source text.
    pub fn to_string(&self) -> (text: String)
        ensures
            text@ == expression_text(self@),
        decreases self,
    {
        match self {
            Expression::Identifier(node) => node.to_string(),
            Expression::Integer(node) => node.to_string(),
            Expression::String(node) => node.to_string(),
            Expression::Boolean(node) => node.to_string(),
            Expression::Prefix(node) => node.to_string(),
            Expression::Infix(node) => node.to_string(),
            Expression::If(node) => node.to_string(),
            Expression::Function(node) => node.to_string(),
            Expression::Call(node) => node.to_string(),
            Expression::Error(node) => node.to_string(),
            Expression::Assign(node) => node.to_string(),
            Expression::While(node) => node.to_string(),
        }
    }
}

impl LetStatement {
    /// The statement as source text.
    pub fn to_string(&self) -> (text: String)
        ensures
            text@ == statement_text(self@),
        decreases self,
    {
        String::from_str("let ").concat(self.name.value.as_str()).concat(" = ").concat(
            self.value.to_string().as_str(),
        ).concat(";")
    }
}

impl ReturnStatement {
    /// The statement as source text.
    pub fn to_string(&self) -> (text: String)
        ensures
            text@ == statement_text(self@),
        decreases self,
    {
        String::from_str("ret ").concat(self.value.to_string().as_str()).concat(";")
    }
}

impl ExpressionStatement {
    /// The expression, and a semicolon.
    pub fn to_string(&self) -> (text: String)
        ensures
            text@ == statement_text(self@),
        decreases self,
    {
        self.expression.to_string().concat(";")
    }
}

impl BlockStatement {
    /// The statements of the block, separated by spaces.
    pub fn to_string(&self) -> (text: String)
        ensures
            text@ == block_text(self@, self@.len()),
        decreases self,
    {
        statements_to_string(&self.statements)
    }
}

impl Statement {
    /// The statement as source text.
    pub fn to_string(&self) -> (text: String)
        ensures
            text@ == statement_text(self@),
        decreases self,
    {
        match self {
            Statement::Let(node) => node.to_string(),
            Statement::Return(node) => node.to_string(),
            Statement::Expression(node) => node.to_string(),
            Statement::Block(node) => node.to_string(),
        }
    }
}

impl Program {
    /// The program as text: each statement on an indented line of its own,
    /// between the braces of a `program` block.
    pub fn to_string(&self) -> (text: String)
        ensures
            text@ == program_text(self@),
    {
        let mut text = String::from_str("program: {\n");
        let mut index: usize = 0;
        assert(text@ =~= "program: {\n"@ + program_lines(self@, 0));
        while index < self.statements.len()
            invariant
                index <= self.statements.len(),
                text@ == "program: {\n"@ + program_lines(self@, index as nat),
            decreases self.statements.len() - index,
        {
            let shown = self.statements[index].to_string();
            text.append("    ");
            text.append(shown.as_str());
            text.append("\n");
            index = index + 1;
            assert(text@ =~= "program: {\n"@ + program_lines(self@, index as nat));
        }
        text.append("}");
        text
    }
}

} // verus!
