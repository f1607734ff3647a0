//! The expressions of the language: one type for each form, the sum of
//! them, and their mathematical form.

use crate::ast::statement::{BlockStatement, StmtView};
use crate::evaluate::environment::Environment;
use crate::lexer::token::{Token, TokenView};
use vstd::prelude::*;

verus! {

/// The mathematical form of an expression: what it says, with texts as
/// sequences of characters and children held by value.
pub enum ExprView {
    Identifier { name: Seq<char> },
    Integer { digits: Seq<char> },
    String { text: Seq<char> },
    Boolean { val: bool },
    Prefix { operator: TokenView, right: Box<ExprView> },
    Infix { left: Box<ExprView>, operator: TokenView, right: Box<ExprView> },
    If { condition: Box<ExprView>, consequence: Seq<StmtView>, alternative: Option<Seq<StmtView>> },
    Function { parameters: Seq<Seq<char>>, body: Seq<StmtView> },
    Call { function: Box<ExprView>, arguments: Seq<ExprView> },
    Error { content: Box<ExprView> },
    Assign { name: Seq<char>, value: Box<ExprView> },
    While { condition: Box<ExprView>, consequence: Seq<StmtView> },
}

/// A name.
#[derive(Debug)]
pub struct Identifier {
    pub value: String,
}

/// An integer literal, kept as the text that was read.
#[derive(Debug)]
pub struct Integer {
    pub val: String,
}

/// A string literal.
#[derive(Debug)]
pub struct StringExpression {
    pub val: String,
}

/// `true` or `false`.
#[derive(Debug)]
pub struct Boolean {
    pub val: bool,
}

/// A unary operator applied to an operand.
#[derive(Debug)]
pub struct PrefixExpression {
    pub prefix: Token,
    pub right: Box<Expression>,
}

/// A binary operator between two operands.
#[derive(Debug)]
pub struct InfixExpression {
    pub left: Box<Expression>,
    pub operator: Token,
    pub right: Box<Expression>,
}

/// `if (condition) { consequence } else { alternative }`, the `else` being optional.
#[derive(Debug)]
pub struct IfExpression {
    pub condition: Box<Expression>,
    pub consequence: BlockStatement,
    pub alternative: Option<BlockStatement>,
}

/// A function literal. The environment slot is not part of what the literal
/// says: the scope a closure captures is taken when the literal is evaluated.
#[derive(Debug)]
pub struct FunctionExpression {
    pub parameters: Vec<Identifier>,
    pub body: BlockStatement,
    pub env: Environment,
}

/// A call of a callee with arguments.
#[derive(Debug)]
pub struct CallExpression {
    pub function: Box<Expression>,
    pub arguments: Vec<Expression>,
}

/// An expression whose value is wrapped as an error value.
#[derive(Debug)]
pub struct ErrorExpression {
    pub content: Box<Expression>,
}

/// `name = value`.
#[derive(Debug)]
pub struct AssignExpression {
    pub name: Identifier,
    pub value: Box<Expression>,
}

/// `while (condition) { consequence }`.
#[derive(Debug)]
pub struct WhileExpression {
    pub condition: Box<Expression>,
    pub consequence: BlockStatement,
}

/// Any expression.
#[derive(Debug)]
pub enum Expression {
    Identifier(Identifier),
    Integer(Integer),
    String(StringExpression),
    Boolean(Boolean),
    Prefix(PrefixExpression),
    Infix(InfixExpression),
    If(IfExpression),
    Function(FunctionExpression),
    Call(CallExpression),
    Error(ErrorExpression),
    Assign(AssignExpression),
    While(WhileExpression),
}

/// The names of a parameter list.
pub open spec fn names_view(names: Seq<Identifier>) -> Seq<Seq<char>> {
    names.map_values(|n: Identifier| n@)
}

/// The views of a list of expressions, in order.
pub open spec fn expressions_view(list: &Vec<Expression>) -> Seq<ExprView>
    decreases list,
{
    Seq::new(
        list.len() as nat,
        |i: int|
            if 0 <= i < list.len() {
                list[i]@
            } else {
                arbitrary()
            },
    )
}

impl Identifier {
    pub open spec fn view(&self) -> Seq<char> {
        self.value@
    }

    pub open spec fn expr_view(&self) -> ExprView {
        ExprView::Identifier { name: self.value@ }
    }
}

impl Integer {
    pub open spec fn view(&self) -> ExprView {
        ExprView::Integer { digits: self.val@ }
    }
}

impl StringExpression {
    pub open spec fn view(&self) -> ExprView {
        ExprView::String { text: self.val@ }
    }
}

impl Boolean {
    pub open spec fn view(&self) -> ExprView {
        ExprView::Boolean { val: self.val }
    }
}

impl PrefixExpression {
    pub open spec fn view(&self) -> ExprView
        decreases self,
    {
        ExprView::Prefix { operator: self.prefix@, right: Box::new(self.right@) }
    }
}

impl InfixExpression {
    pub open spec fn view(&self) -> ExprView
        decreases self,
    {
        ExprView::Infix {
            left: Box::new(self.left@),
            operator: self.operator@,
            right: Box::new(self.right@),
        }
    }
}

impl IfExpression {
    pub open spec fn view(&self) -> ExprView
        decreases self,
    {
        ExprView::If {
            condition: Box::new(self.condition@),
            consequence: self.consequence@,
            alternative: match self.alternative {
                Some(block) => Some(block@),
                None => None,
            },
        }
    }
}

impl FunctionExpression {
    pub open spec fn view(&self) -> ExprView
        decreases self,
    {
        ExprView::Function { parameters: names_view(self.parameters@), body: self.body@ }
    }
}

impl CallExpression {
    pub open spec fn view(&self) -> ExprView
        decreases self,
    {
        ExprView::Call {
            function: Box::new(self.function@),
            arguments: expressions_view(&self.arguments),
        }
    }
}

impl ErrorExpression {
    pub open spec fn view(&self) -> ExprView
        decreases self,
    {
        ExprView::Error { content: Box::new(self.content@) }
    }
}

impl AssignExpression {
    pub open spec fn view(&self) -> ExprView
        decreases self,
    {
        ExprView::Assign { name: self.name@, value: Box::new(self.value@) }
    }
}

impl WhileExpression {
    pub open spec fn view(&self) -> ExprView
        decreases self,
    {
        ExprView::While { condition: Box::new(self.condition@), consequence: self.consequence@ }
    }
}

impl Expression {
    pub open spec fn view(&self) -> ExprView
        decreases self,
    {
        match self {
            Expression::Identifier(node) => node.expr_view(),
            Expression::Integer(node) => node@,
            Expression::String(node) => node@,
            Expression::Boolean(node) => node@,
            Expression::Prefix(node) => node@,
            Expression::Infix(node) => node@,
            Expression::If(node) => node@,
            Expression::Function(node) => node@,
            Expression::Call(node) => node@,
            Expression::Error(node) => node@,
            Expression::Assign(node) => node@,
            Expression::While(node) => node@,
        }
    }
}

} // verus!

verus! {

/// A copy of a parameter list.
pub fn clone_names(names: &Vec<Identifier>) -> (copy: Vec<Identifier>)
    ensures
        names_view(copy@) == names_view(names@),
{
    let mut copy: Vec<Identifier> = Vec::new();
    let mut index: usize = 0;
    while index < names.len()
        invariant
            index <= names.len(),
            copy.len() == index,
            forall|i: int| 0 <= i < index ==> (#[trigger] copy[i])@ == names[i]@,
        decreases names.len() - index,
    {
        copy.push(names[index].clone());
        index = index + 1;
    }
    assert(names_view(copy@) =~= names_view(names@));
    copy
}

/// A copy of a list of expressions.
pub fn clone_expressions(list: &Vec<Expression>) -> (copy: Vec<Expression>)
    ensures
        expressions_view(&copy) == expressions_view(list),
    decreases list,
{
    let mut copy: Vec<Expression> = Vec::new();
    let mut index: usize = 0;
    while index < list.len()
        invariant
            index <= list.len(),
            copy.len() == index,
            forall|i: int| 0 <= i < index ==> (#[trigger] copy[i])@ == list[i]@,
        decreases list.len() - index,
    {
        copy.push(list[index].clone());
        index = index + 1;
    }
    assert(expressions_view(&copy) =~= expressions_view(list));
    copy
}

impl Identifier {
    pub fn new(value: String) -> (node: Self)
        ensures
            node == (Identifier { value }),
    {
        Self { value }
    }
}

impl Clone for Identifier {
    fn clone(&self) -> (copy: Self)
        ensures
            copy@ == self@,
    {
        Identifier { value: self.value.clone() }
    }
}

impl Integer {
    pub fn new(val: String) -> (node: Self)
        ensures
            node == (Integer { val }),
    {
        Self { val }
    }
}

impl StringExpression {
    pub fn new(val: String) -> (node: Self)
        ensures
            node == (StringExpression { val }),
    {
        Self { val }
    }
}

impl Boolean {
    pub fn new(val: bool) -> (node: Self)
        ensures
            node == (Boolean { val }),
    {
        Self { val }
    }
}

impl PrefixExpression {
    pub fn new(prefix: Token, right: Box<Expression>) -> (node: Self)
        ensures
            node == (PrefixExpression { prefix, right }),
    {
        Self { prefix, right }
    }
}

impl InfixExpression {
    pub fn new(left: Box<Expression>, operator: Token, right: Box<Expression>) -> (node: Self)
        ensures
            node == (InfixExpression { left, operator, right }),
    {
        Self { left, operator, right }
    }
}

impl IfExpression {
    pub fn new(
        condition: Box<Expression>,
        consequence: BlockStatement,
        alternative: Option<BlockStatement>,
    ) -> (node: Self)
        ensures
            node == (IfExpression { condition, consequence, alternative }),
    {
        Self { condition, consequence, alternative }
    }
}

impl FunctionExpression {
    pub fn new(parameters: Vec<Identifier>, body: BlockStatement, env: Environment) -> (node: Self)
        ensures
            node == (FunctionExpression { parameters, body, env }),
    {
        Self { parameters, body, env }
    }
}

impl CallExpression {
    pub fn new(function: Box<Expression>, arguments: Vec<Expression>) -> (node: Self)
        ensures
            node == (CallExpression { function, arguments }),
    {
        Self { function, arguments }
    }
}

impl ErrorExpression {
    pub fn new(content: Box<Expression>) -> (node: Self)
        ensures
            node == (ErrorExpression { content }),
    {
        Self { content }
    }
}

impl AssignExpression {
    pub fn new(name: Identifier, value: Box<Expression>) -> (node: Self)
        ensures
            node == (AssignExpression { name, value }),
    {
        Self { name, value }
    }
}

impl WhileExpression {
    pub fn new(condition: Box<Expression>, consequence: BlockStatement) -> (node: Self)
        ensures
            node == (WhileExpression { condition, consequence }),
    {
        Self { condition, consequence }
    }
}


/// What can be copied as an expression that is independent of it.
pub trait CloneAsExpression {
    /// What the copy says.
    spec fn copied(&self) -> ExprView;

    fn clone_as_expression(&self) -> (copy: Box<Expression>)
        ensures
            copy@ == self.copied(),
    ;
}

impl CloneAsExpression for Identifier {
    open spec fn copied(&self) -> ExprView {
        self.expr_view()
    }

    fn clone_as_expression(&self) -> (copy: Box<Expression>) {
        Box::new(Expression::Identifier(self.clone()))
    }
}

impl CloneAsExpression for Integer {
    open spec fn copied(&self) -> ExprView {
        self@
    }

    fn clone_as_expression(&self) -> (copy: Box<Expression>) {
        Box::new(Expression::Integer(Integer { val: self.val.clone() }))
    }
}

impl CloneAsExpression for StringExpression {
    open spec fn copied(&self) -> ExprView {
        self@
    }

    fn clone_as_expression(&self) -> (copy: Box<Expression>) {
        Box::new(Expression::String(StringExpression { val: self.val.clone() }))
    }
}

impl CloneAsExpression for Boolean {
    open spec fn copied(&self) -> ExprView {
        self@
    }

    fn clone_as_expression(&self) -> (copy: Box<Expression>) {
        Box::new(Expression::Boolean(Boolean { val: self.val }))
    }
}

impl CloneAsExpression for PrefixExpression {
    open spec fn copied(&self) -> ExprView {
        self@
    }

    fn clone_as_expression(&self) -> (copy: Box<Expression>)
        decreases self,
    {
        Box::new(
            Expression::Prefix(
                PrefixExpression { prefix: self.prefix.clone(), right: self.right.clone_as_expression() },
            ),
        )
    }
}

impl CloneAsExpression for InfixExpression {
    open spec fn copied(&self) -> ExprView {
        self@
    }

    fn clone_as_expression(&self) -> (copy: Box<Expression>)
        decreases self,
    {
        Box::new(
            Expression::Infix(
                InfixExpression {
                    left: self.left.clone_as_expression(),
                    operator: self.operator.clone(),
                    right: self.right.clone_as_expression(),
                },
            ),
        )
    }
}

impl CloneAsExpression for IfExpression {
    open spec fn copied(&self) -> ExprView {
        self@
    }

    fn clone_as_expression(&self) -> (copy: Box<Expression>)
        decreases self,
    {
        let alternative = match &self.alternative {
            Some(block) => Some(block.clone_as_block_statement()),
            None => None,
        };
        Box::new(
            Expression::If(
                IfExpression {
                    condition: self.condition.clone_as_expression(),
                    consequence: self.consequence.clone_as_block_statement(),
                    alternative,
                },
            ),
        )
    }
}

impl CloneAsExpression for FunctionExpression {
    open spec fn copied(&self) -> ExprView {
        self@
    }

    /// An independent copy, as an expression. Its environment slot is empty.
    fn clone_as_expression(&self) -> (copy: Box<Expression>)
        decreases self,
    {
        Box::new(
            Expression::Function(
                FunctionExpression {
                    parameters: clone_names(&self.parameters),
                    body: self.body.clone_as_block_statement(),
                    env: Environment::new(),
                },
            ),
        )
    }
}

impl CloneAsExpression for CallExpression {
    open spec fn copied(&self) -> ExprView {
        self@
    }

    fn clone_as_expression(&self) -> (copy: Box<Expression>)
        decreases self,
    {
        Box::new(
            Expression::Call(
                CallExpression {
                    function: self.function.clone_as_expression(),
                    arguments: clone_expressions(&self.arguments),
                },
            ),
        )
    }
}

impl CloneAsExpression for ErrorExpression {
    open spec fn copied(&self) -> ExprView {
        self@
    }

    fn clone_as_expression(&self) -> (copy: Box<Expression>)
        decreases self,
    {
        Box::new(Expression::Error(ErrorExpression { content: self.content.clone_as_expression() }))
    }
}

impl CloneAsExpression for AssignExpression {
    open spec fn copied(&self) -> ExprView {
        self@
    }

    fn clone_as_expression(&self) -> (copy: Box<Expression>)
        decreases self,
    {
        Box::new(
            Expression::Assign(
                AssignExpression { name: self.name.clone(), value: self.value.clone_as_expression() },
            ),
        )
    }
}

impl CloneAsExpression for WhileExpression {
    open spec fn copied(&self) -> ExprView {
        self@
    }

    fn clone_as_expression(&self) -> (copy: Box<Expression>)
        decreases self,
    {
        Box::new(
            Expression::While(
                WhileExpression {
                    condition: self.condition.clone_as_expression(),
                    consequence: self.consequence.clone_as_block_statement(),
                },
            ),
        )
    }
}

impl CloneAsExpression for Expression {
    open spec fn copied(&self) -> ExprView {
        self@
    }

    fn clone_as_expression(&self) -> (copy: Box<Expression>)
        decreases self, 0nat,
    {
        match self {
            Expression::Identifier(node) => node.clone_as_expression(),
            Expression::Integer(node) => node.clone_as_expression(),
            Expression::String(node) => node.clone_as_expression(),
            Expression::Boolean(node) => node.clone_as_expression(),
            Expression::Prefix(node) => node.clone_as_expression(),
            Expression::Infix(node) => node.clone_as_expression(),
            Expression::If(node) => node.clone_as_expression(),
            Expression::Function(node) => node.clone_as_expression(),
            Expression::Call(node) => node.clone_as_expression(),
            Expression::Error(node) => node.clone_as_expression(),
            Expression::Assign(node) => node.clone_as_expression(),
            Expression::While(node) => node.clone_as_expression(),
        }
    }
}

impl Clone for Expression {
    fn clone(&self) -> (copy: Self)
        ensures
            copy@ == self@,
        decreases self, 1nat,
    {
        *self.clone_as_expression()
    }
}

} // verus!
