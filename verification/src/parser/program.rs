//! A program: the list of its top-level statements.

use crate::ast::statement::{clone_statements, statements_view, Statement, StmtView};
use vstd::prelude::*;

verus! {

/// A program: its top-level statements, in order.
#[derive(Debug)]
pub struct Program {
    pub statements: Vec<Statement>,
}

impl Program {
    pub open spec fn view(&self) -> Seq<StmtView> {
        statements_view(&self.statements)
    }

    /// A program without statements.
    pub fn new() -> (program: Self)
        ensures
            program@ == Seq::<StmtView>::empty(),
    {
        let program = Program { statements: Vec::new() };
        assert(program@ =~= Seq::<StmtView>::empty());
        program
    }

    /// Adds a statement at the end.
    pub fn add_statement(&mut self, statement: Statement)
        ensures
            final(self)@ == old(self)@.push(statement@),
    {
        self.statements.push(statement);
        assert(self@ =~= old(self)@.push(statement@));
    }

    /// The statements of the program, in order.
    pub fn statements(&self) -> (list: &Vec<Statement>)
        ensures
            list == &self.statements,
    {
        &self.statements
    }
}

impl Clone for Program {
    fn clone(&self) -> (copy: Self)
        ensures
            copy@ == self@,
    {
        Program { statements: clone_statements(&self.statements) }
    }
}

impl Default for Program {
    fn default() -> (program: Self)
        ensures
            program@ == Seq::<StmtView>::empty(),
    {
        Program::new()
    }
}

} // verus!
