use crate::base::ast::{ASTNode, WhileStmtNode};
use crate::base::errors::SyntaxError;
use crate::base::token::Kind;
use crate::parser::grammar::reads_as;
use crate::parser::rules::check_boolean;
use crate::parser::syntax::{
    lemma_single_error, outcome_as, read_block_with, read_guard, read_while,
};
use crate::parser::Parser;
use vstd::prelude::*;

verus! {

impl Parser {
    /// Parses the guard of an `if` or of a `while`, and the keyword
    /// that must follow it. The guard must be a `Bool` expression: one
    /// of another type is an error, whatever follows it.
    pub fn parse_guard(&mut self, place: &str, follows: Kind) -> (r: Result<ASTNode, Vec<SyntaxError>>)
        ensures
            final(self)@.reads_on(old(self)@),
            match r {
                Ok(node) => {
                    &&& node.well_typed()
                    &&& node.spec_r_type() == crate::base::ast::boolean()
                    &&& final(self)@.fuel() < old(self)@.fuel()
                    &&& final(self)@.current.kind == follows
                },
                Err(errors) => errors@.len() == 1,
            },
            reads_as(r, final(self)@, read_guard(old(self)@, place@, follows)),
    {
        reveal(read_guard);
        self.settled();
        let expr = self.parse_expression()?;
        self.lift(check_boolean(&expr, place))?;
        self.expect_current(follows)?;
        Ok(expr)
    }

    /// Parses a while loop. The current token is `while`; the statement
    /// ends with the `end` of its body. The guard must be a `Bool`
    /// expression: one of another type is an error, and the body is
    /// then not parsed. The body is a block with a scope of its own.
    pub fn parse_while_loop(&mut self) -> (r: Result<ASTNode, Vec<SyntaxError>>)
        ensures
            final(self)@.reads_on(old(self)@),
            match r {
                Ok(node) => node.well_typed() && node is WhileStmt,
                Err(errors) => errors@.len() >= 1,
            },
            outcome_as(r, final(self)@, read_while(old(self)@)),
        decreases old(self)@.fuel(), 15nat,
    {
        reveal_with_fuel(read_while, 1);
        reveal_with_fuel(read_block_with, 1);
        self.settled();
        let while_token = self.current().clone();
        let expr = match self.parse_guard("while loop guard", Kind::Do) {
            Ok(expr) => expr,
            Err(errors) => {
                proof {
                    lemma_single_error(
                        errors@,
                        read_guard(old(self)@, "while loop guard"@, Kind::Do).result->Err_0,
                    );
                }
                return Err(errors);
            },
        };
        let ghost guarded = self@;
        match self.expect_advance(Kind::Begin) {
            Ok(_) => {},
            Err(errors) => {
                proof {
                    lemma_single_error(
                        errors@,
                        self@.error(
                            crate::parser::unexpected_message(Kind::Begin, self@.current.kind),
                        ),
                    );
                    self@.lemma_reads_trans(guarded, old(self)@);
                }
                return Err(errors);
            },
        }
        let ghost begun = self@;
        proof {
            begun.lemma_reads_trans(guarded, old(self)@);
        }
        let body = self.parse_block();
        proof {
            self@.lemma_reads_trans(begun, old(self)@);
        }
        let block = body?;
        Ok(
            ASTNode::WhileStmt(
                WhileStmtNode {
                    position: while_token.position,
                    guard: Box::new(expr),
                    block: Box::new(block),
                },
            ),
        )
    }
}

} // verus!
