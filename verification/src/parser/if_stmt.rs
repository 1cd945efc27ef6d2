use crate::base::ast::{ASTNode, ElseStmtNode, IfStmtNode};
use crate::base::errors::SyntaxError;
use crate::base::token::Kind;
use crate::parser::state::statement_parsed;
use crate::parser::syntax::{lemma_single_error, outcome_as, read_guard, read_if, read_statement};
use crate::parser::Parser;
use crate::base::tree::Tree;
use vstd::prelude::*;

verus! {

impl Parser {
    /// Parses an if statement. The current token is `if`; the statement
    /// ends with its last branch. The guard must be a `Bool`
    /// expression: one of another type is an error, and the branches
    /// are then not parsed. Each branch is one statement.
    pub fn parse_if(&mut self) -> (r: Result<ASTNode, Vec<SyntaxError>>)
        ensures
            statement_parsed(old(self)@, final(self)@, r),
            r matches Ok(node) ==> node is IfStmt,
            outcome_as(r, final(self)@, read_if(old(self)@)),
        decreases old(self)@.fuel(), 15nat,
    {
        reveal_with_fuel(read_if, 1);
        reveal_with_fuel(read_statement, 1);
        self.settled();
        let if_id = self.current().clone();
        let guard = match self.parse_guard("if guard", Kind::Then) {
            Ok(guard) => guard,
            Err(errors) => {
                proof {
                    lemma_single_error(
                        errors@,
                        read_guard(old(self)@, "if guard"@, Kind::Then).result->Err_0,
                    );
                    self@.lemma_reads_declares(old(self)@);
                }
                return Err(errors);
            },
        };
        let ghost guarded = self@;
        let then_stmt = match self.parse_statement() {
            Ok(stmt) => stmt,
            Err(errors) => {
                proof {
                    guarded.lemma_reads_declares(old(self)@);
                    self@.lemma_declares_trans(guarded, old(self)@);
                }
                return Err(errors);
            },
        };
        let ghost branched = self@;
        proof {
            guarded.lemma_reads_declares(old(self)@);
            branched.lemma_declares_trans(guarded, old(self)@);
        }
        self.advance();
        if self.matches(Kind::Else) {
            let else_id = self.current().clone();
            let ghost at_else = self@;
            proof {
                at_else.lemma_reads_declares(branched);
                at_else.lemma_declares_trans(branched, old(self)@);
            }
            let else_stmt = match self.parse_statement() {
                Ok(stmt) => stmt,
                Err(errors) => {
                    proof {
                        self@.lemma_declares_trans(at_else, old(self)@);
                    }
                    return Err(errors);
                },
            };
            proof {
                self@.lemma_declares_trans(at_else, old(self)@);
            }
            let ghost branch = else_stmt.tree();
            let else_node = ASTNode::ElseStmt(
                ElseStmtNode { position: else_id.position, block: Box::new(else_stmt) },
            );
            assert(else_node.well_typed());
            assert(else_node.tree() == Tree::Else {
                position: else_id.position,
                block: Box::new(branch),
            });
            Ok(
                ASTNode::IfStmt(
                    IfStmtNode {
                        position: if_id.position,
                        guard: Box::new(guard),
                        then_stmt: Box::new(then_stmt),
                        else_stmt: Some(Box::new(else_node)),
                    },
                ),
            )
        } else {
            let ghost peeked = self@;
            self.go_back();
            proof {
                assert(self@.reads_on(branched));
                self@.lemma_reads_declares(branched);
                self@.lemma_declares_trans(branched, old(self)@);
            }
            Ok(
                ASTNode::IfStmt(
                    IfStmtNode {
                        position: if_id.position,
                        guard: Box::new(guard),
                        then_stmt: Box::new(then_stmt),
                        else_stmt: None,
                    },
                ),
            )
        }
    }
}

} // verus!
