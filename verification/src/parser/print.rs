use crate::base::ast::ASTNode;
use crate::base::errors::SyntaxError;
use crate::base::token::Kind;
use crate::parser::rules::print;
use crate::parser::syntax::{read_print, statement_as};
use crate::parser::Parser;
use vstd::prelude::*;

verus! {

impl Parser {
    /// Parses a print statement returning the corresponding ASTNode
    ///
    /// The current token is `writeln`; the statement ends with its `;`.
    /// What is printed is an expression in parentheses, of any type but
    /// `Void`.
    pub fn parse_print(&mut self) -> (r: Result<ASTNode, Vec<SyntaxError>>)
        ensures
            final(self)@.reads_on(old(self)@),
            match r {
                Ok(node) => node.well_typed() && node is PrintStmt,
                Err(errors) => errors@.len() == 1,
            },
            statement_as(r, final(self)@, read_print(old(self)@)),
    {
        reveal(read_print);
        self.settled();
        let position = self.current().position;
        self.expect_advance(Kind::LeftParen)?;
        let expr = self.parse_expression()?;
        self.expect_current(Kind::RightParen)?;
        self.expect_advance(Kind::Semicolon)?;
        self.lift(print(position, expr))
    }
}

} // verus!
