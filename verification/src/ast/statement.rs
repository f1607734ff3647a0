//! The statements of the language and their mathematical form.

use crate::ast::expression::{CloneAsExpression, ExprView, Expression, Identifier};
use crate::lexer::token::Token;
use vstd::prelude::*;

verus! {

/// The mathematical form of a statement: what it says. The token that an
/// expression statement keeps from its source is no part of that.
pub enum StmtView {
    Let { name: Seq<char>, value: ExprView },
    Return { value: ExprView },
    Expression { expression: ExprView },
    Block { statements: Seq<StmtView> },
}

/// `let name = value;`
#[derive(Debug)]
pub struct LetStatement {
    pub name: Identifier,
    pub value: Box<Expression>,
}

/// `ret value;`
#[derive(Debug)]
pub struct ReturnStatement {
    pub value: Box<Expression>,
}

/// An expression standing as a statement, with the token it began with.
#[derive(Debug)]
pub struct ExpressionStatement {
    pub token: Token,
    pub expression: Box<Expression>,
}

/// A list of statements between braces. It opens no scope of its own.
#[derive(Debug)]
pub struct BlockStatement {
    pub statements: Vec<Statement>,
}

/// Any statement.
#[derive(Debug)]
pub enum Statement {
    Let(LetStatement),
    Return(ReturnStatement),
    Expression(ExpressionStatement),
    Block(BlockStatement),
}

/// The views of a list of statements, in order.
pub open spec fn statements_view(list: &Vec<Statement>) -> Seq<StmtView>
    decreases list,
{
    Seq::new(
        list.len() as nat,
        |i: int|
            if 0 <= i < list.len() {
                list[i]@
            } else {
                arbitrary()
            },
    )
}

impl LetStatement {
    pub open spec fn view(&self) -> StmtView
        decreases self,
    {
        StmtView::Let { name: self.name@, value: self.value@ }
    }
}

impl ReturnStatement {
    pub open spec fn view(&self) -> StmtView
        decreases self,
    {
        StmtView::Return { value: self.value@ }
    }
}

impl ExpressionStatement {
    pub open spec fn view(&self) -> StmtView
        decreases self,
    {
        StmtView::Expression { expression: self.expression@ }
    }
}

impl BlockStatement {
    pub open spec fn view(&self) -> Seq<StmtView>
        decreases self,
    {
        statements_view(&self.statements)
    }
}

impl Statement {
    pub open spec fn view(&self) -> StmtView
        decreases self,
    {
        match self {
            Statement::Let(node) => node@,
            Statement::Return(node) => node@,
            Statement::Expression(node) => node@,
            Statement::Block(node) => StmtView::Block { statements: node@ },
        }
    }
}

} // verus!

verus! {

/// A copy of a list of statements.
pub fn clone_statements(list: &Vec<Statement>) -> (copy: Vec<Statement>)
    ensures
        statements_view(&copy) == statements_view(list),
    decreases list,
{
    let mut copy: Vec<Statement> = Vec::new();
    let mut index: usize = 0;
    while index < list.len()
        invariant
            index <= list.len(),
            copy.len() == index,
            forall|i: int| 0 <= i < index ==> (#[trigger] copy[i])@ == list[i]@,
        decreases list.len() - index,
    {
        copy.push(list[index].clone_as_statement());
        index = index + 1;
    }
    assert(statements_view(&copy) =~= statements_view(list));
    copy
}

impl LetStatement {
    pub fn new(name: Identifier, value: Box<Expression>) -> (node: Self)
        ensures
            node == (LetStatement { name, value }),
    {
        Self { name, value }
    }
}

impl ReturnStatement {
    pub fn new(value: Box<Expression>) -> (node: Self)
        ensures
            node == (ReturnStatement { value }),
    {
        Self { value }
    }
}

impl ExpressionStatement {
    pub fn new(token: Token, expression: Box<Expression>) -> (node: Self)
        ensures
            node == (ExpressionStatement { token, expression }),
    {
        Self { token, expression }
    }
}

impl BlockStatement {
    pub fn new(statements: Vec<Statement>) -> (node: Self)
        ensures
            node == (BlockStatement { statements }),
    {
        Self { statements }
    }

    /// The statements of the block, in order.
    pub fn statements(&self) -> (list: &Vec<Statement>)
        ensures
            list == &self.statements,
    {
        &self.statements
    }

    /// An independent copy of the block.
    pub fn clone_as_block_statement(&self) -> (copy: BlockStatement)
        ensures
            copy@ == self@,
        decreases self, 0nat,
    {
        BlockStatement { statements: clone_statements(&self.statements) }
    }
}


/// What can be copied as a statement that is independent of it.
pub trait CloneAsStatement {
    /// What the copy says.
    spec fn copied(&self) -> StmtView;

    fn clone_as_statement(&self) -> (copy: Statement)
        ensures
            copy@ == self.copied(),
    ;
}

impl CloneAsStatement for LetStatement {
    open spec fn copied(&self) -> StmtView {
        self@
    }

    fn clone_as_statement(&self) -> (copy: Statement)
        decreases self,
    {
        Statement::Let(
            LetStatement { name: self.name.clone(), value: self.value.clone_as_expression() },
        )
    }
}

impl CloneAsStatement for ReturnStatement {
    open spec fn copied(&self) -> StmtView {
        self@
    }

    fn clone_as_statement(&self) -> (copy: Statement)
        decreases self,
    {
        Statement::Return(ReturnStatement { value: self.value.clone_as_expression() })
    }
}

impl CloneAsStatement for ExpressionStatement {
    open spec fn copied(&self) -> StmtView {
        self@
    }

    fn clone_as_statement(&self) -> (copy: Statement)
        decreases self,
    {
        Statement::Expression(
            ExpressionStatement {
                token: self.token.clone(),
                expression: self.expression.clone_as_expression(),
            },
        )
    }
}

impl CloneAsStatement for BlockStatement {
    open spec fn copied(&self) -> StmtView {
        (StmtView::Block { statements: self@ })
    }

    fn clone_as_statement(&self) -> (copy: Statement)
        decreases self, 1nat,
    {
        Statement::Block(self.clone_as_block_statement())
    }
}

impl CloneAsStatement for Statement {
    open spec fn copied(&self) -> StmtView {
        self@
    }

    fn clone_as_statement(&self) -> (copy: Statement)
        decreases self, 0nat,
    {
        match self {
            Statement::Let(node) => node.clone_as_statement(),
            Statement::Return(node) => node.clone_as_statement(),
            Statement::Expression(node) => node.clone_as_statement(),
            Statement::Block(node) => node.clone_as_statement(),
        }
    }
}

impl Clone for Statement {
    fn clone(&self) -> (copy: Self)
        ensures
            copy@ == self@,
        decreases self, 1nat,
    {
        self.clone_as_statement()
    }
}

} // verus!
