use crate::base::ast::ASTNode;
use crate::base::errors::SyntaxError;
use crate::base::token::Kind;
use crate::parser::rules::assertion;
use crate::parser::syntax::{read_assert, statement_as};
use crate::parser::Parser;
use vstd::prelude::*;

verus! {

impl Parser {
    /// Parses an assert statement. The current token is `assert`; the
    /// statement ends with its `;`. What is asserted is a `Bool`
    /// expression in parentheses.
    pub fn parse_assert(&mut self) -> (r: Result<ASTNode, Vec<SyntaxError>>)
        ensures
            final(self)@.reads_on(old(self)@),
            match r {
                Ok(node) => node.well_typed() && node is AssertStmt,
                Err(errors) => errors@.len() == 1,
            },
            statement_as(r, final(self)@, read_assert(old(self)@)),
    {
        reveal(read_assert);
        self.settled();
        self.expect_advance(Kind::LeftParen)?;
        let expr = self.parse_expression()?;
        self.expect_current(Kind::RightParen)?;
        self.expect_advance(Kind::Semicolon)?;
        let position = self.current().position;
        self.lift(assertion(position, expr))
    }
}

} // verus!
