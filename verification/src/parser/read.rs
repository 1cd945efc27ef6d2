use crate::base::ast::ASTNode;
use crate::base::errors::SyntaxError;
use crate::base::token::Kind;
use crate::parser::rules::read;
use crate::parser::syntax::{read_read, statement_as};
use crate::parser::Parser;
use vstd::prelude::*;

verus! {

impl Parser {
    /// Parses a read statement, returning the corresponding ASTNode
    ///
    /// The current token is `read`; the statement ends with its `;`.
    /// What is read into stands in parentheses: a variable or an
    /// element of an array, of a base type.
    pub fn parse_read(&mut self) -> (r: Result<ASTNode, Vec<SyntaxError>>)
        ensures
            final(self)@.reads_on(old(self)@),
            match r {
                Ok(node) => node.well_typed() && node is ReadStmt,
                Err(errors) => errors@.len() == 1,
            },
            statement_as(r, final(self)@, read_read(old(self)@)),
    {
        reveal(read_read);
        self.settled();
        let pos = self.current().position;
        self.expect_advance(Kind::LeftParen)?;
        self.expect_advance(Kind::Identifier)?;
        let where_to_read = self.parse_symbol()?;
        self.expect_advance(Kind::RightParen)?;
        self.expect_advance(Kind::Semicolon)?;
        self.lift(read(pos, where_to_read))
    }
}

} // verus!
