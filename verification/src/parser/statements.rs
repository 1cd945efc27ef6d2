use crate::base::ast::{ASTNode, EofNode, ProgramNameNode};
use crate::base::errors::SyntaxError;
use crate::base::symbol_table::SymbolType;
use crate::base::token::Kind;
use crate::parser::state::statement_parsed;
use crate::parser::syntax::{
    begins_simple, lemma_single_error, lemma_statement_outcome, outcome_as, read_block_with,
    read_global_statement, read_if, read_named_statement, read_program_name, read_simple,
    read_statement, read_while, statement_as,
};
use crate::parser::Parser;
use crate::text::join2;
use vstd::prelude::*;

verus! {

/// Whether a node is one that stands at the top level of a program: the
/// name of the program, the declaration of a function or of a
/// procedure, the main block, or the end of the source.
pub open spec fn is_global(node: ASTNode) -> bool {
    node is ProgramName || node is FunctionDecl || node is ProcedureDecl || node is Block || node is EofStmt
}

impl Parser {
    /// Parses the name of the program. The current token is `program`;
    /// the statement ends with its `;`.
    pub fn parse_program_name(&mut self) -> (r: Result<ASTNode, Vec<SyntaxError>>)
        ensures
            final(self)@.reads_on(old(self)@),
            match r {
                Ok(node) => node.well_typed() && node is ProgramName,
                Err(errors) => errors@.len() == 1,
            },
            statement_as(r, final(self)@, read_program_name(old(self)@)),
    {
        reveal(read_program_name);
        self.settled();
        self.expect_advance(Kind::Identifier)?;
        let id = self.current().clone();
        self.expect_advance(Kind::Semicolon)?;
        Ok(ASTNode::ProgramName(ProgramNameNode { name: id }))
    }

    /// Parses what stands at the top level of a program, beginning with
    /// the next token: the name of the program, the declaration of a
    /// function or of a procedure, or the main block. At the end of the
    /// source it gives the node for it. Anything else is an error.
    pub fn parse_global_statement(&mut self) -> (r: Result<ASTNode, Vec<SyntaxError>>)
        ensures
            statement_parsed(old(self)@, final(self)@, r),
            r matches Ok(node) ==> is_global(node),
            outcome_as(r, final(self)@, read_global_statement(old(self)@)),
    {
        reveal(read_global_statement);
        self.settled();
        self.set_closed(false);
        let kind = self.advance().kind;
        let ghost a = self@;
        let r = match kind {
            Kind::Function => self.parse_function(),
            Kind::Procedure => self.parse_procedure(),
            Kind::Begin => {
                let r = self.parse_main_block();
                proof {
                    self@.lemma_reads_declares(a);
                }
                r
            },
            Kind::Program => {
                let r = self.parse_program_name();
                proof {
                    lemma_statement_outcome(r, self@, read_program_name(a));
                    self@.lemma_reads_declares(a);
                }
                r
            },
            Kind::Eof => {
                proof {
                    self@.lemma_reads_declares(a);
                }
                Ok(ASTNode::EofStmt(EofNode { eof: self.current().clone() }))
            },
            _ => {
                self.go_back();
                let ghost b = self@;
                match self.parse_statement() {
                    Ok(stmt) => {
                        let found = stmt.to_string();
                        let description = join2(
                            "Expected either function or procedure initialization, found ",
                            found.as_str(),
                        );
                        let errors = self.fail(description.as_str());
                        proof {
                            crate::base::tree::lemma_tree_of_node(stmt);
                            lemma_single_error(
                                errors@,
                                self@.error(
                                    "Expected either function or procedure initialization, found "@
                                        + stmt.text(),
                                ),
                            );
                            self@.lemma_declares_drop(b);
                            assert(self@.declares_on(a));
                        }
                        Err(errors)
                    },
                    Err(errors) => {
                        proof {
                            self@.lemma_declares_drop(b);
                            assert(self@.declares_on(a));
                        }
                        Err(errors)
                    },
                }
            },
        };
        proof {
            a.lemma_reads_declares(old(self)@);
            self@.lemma_declares_trans(a, old(self)@);
        }
        r
    }

    /// Parses a statement that begins with a name, which is the current
    /// token. The name is looked up in the open scopes before anything
    /// else is read: the name of a function begins a call, that of a
    /// procedure a call too, any other name an assignment, and a name
    /// that no scope declares is an error.
    pub fn parse_named_statement(&mut self) -> (r: Result<ASTNode, Vec<SyntaxError>>)
        ensures
            final(self)@.reads_on(old(self)@),
            match r {
                Ok(node) => node.well_typed(),
                Err(errors) => errors@.len() == 1,
            },
            statement_as(r, final(self)@, read_named_statement(old(self)@)),
    {
        reveal(read_named_statement);
        reveal(crate::parser::syntax::read_call_statement);
        self.settled();
        let role = match self.get_symbol(self.current().lexeme.as_str()) {
            Some(s) => Some(s.s_type),
            None => None,
        };
        match role {
            Some(SymbolType::Function) => {
                let node = self.parse_function_call()?;
                self.expect_advance(Kind::Semicolon)?;
                Ok(node)
            },
            Some(SymbolType::Procedure) => self.parse_procedure_call(),
            Some(_) => self.parse_var_assignment(),
            None => {
                let description = join2("Symbol not found: ", self.current().lexeme.as_str());
                Err(self.fail(description.as_str()))
            },
        }
    }

    /// Parses a statement that has no block in it, from its first
    /// token, which is the current token and of the kind `kind`.
    pub(crate) fn parse_simple(&mut self, kind: Kind) -> (r: Result<ASTNode, Vec<SyntaxError>>)
        requires
            kind == old(self)@.current.kind,
            begins_simple(kind),
        ensures
            statement_parsed(old(self)@, final(self)@, r),
            r matches Err(errors) ==> errors@.len() == 1,
            statement_as(r, final(self)@, read_simple(old(self)@)),
    {
        reveal(read_simple);
        self.settled();
        match kind {
            Kind::Var => self.parse_var_declaration(),
            Kind::Identifier => self.parse_named_statement(),
            Kind::Read => self.parse_read(),
            Kind::Print => self.parse_print(),
            Kind::Assert => self.parse_assert(),
            _ => self.parse_return(),
        }
    }

    /// Parses a statement, beginning with the next token. An
    /// identifier is looked up in the open scopes before anything else
    /// is read. At the end of the source the statement is the node for
    /// it.
    pub fn parse_statement(&mut self) -> (r: Result<ASTNode, Vec<SyntaxError>>)
        ensures
            statement_parsed(old(self)@, final(self)@, r),
            old(self)@.pending matches Some(t) && t.kind != Kind::Eof ==> final(self)@.fuel() < old(
                self,
            )@.fuel(),
            outcome_as(r, final(self)@, read_statement(old(self)@)),
        decreases old(self)@.fuel(), 20nat,
    {
        reveal_with_fuel(read_statement, 1);
        reveal_with_fuel(read_while, 1);
        reveal_with_fuel(read_if, 1);
        reveal_with_fuel(read_block_with, 1);
        self.settled();
        self.set_closed(false);
        let ghost begun = self@;
        let kind = self.advance().kind;
        let ghost a = self@;
        let r = match kind {
            Kind::Var | Kind::Identifier | Kind::Read | Kind::Print | Kind::Assert | Kind::Return => {
                let r = self.parse_simple(kind);
                proof {
                    lemma_statement_outcome(r, self@, read_simple(a));
                }
                r
            },
            Kind::While => self.parse_while_loop(),
            Kind::If => self.parse_if(),
            Kind::Begin => self.parse_block(),
            Kind::Eof => Ok(ASTNode::EofStmt(EofNode { eof: self.current().clone() })),
            other => {
                let found = other.to_string();
                let description = join2("Unexpected token: ", found.as_str());
                let errors = self.fail(description.as_str());
                proof {
                    lemma_single_error(errors@, a.error("Unexpected token: "@ + other.text()));
                }
                Err(errors)
            },
        };
        proof {
            a.lemma_reads_declares(old(self)@);
            if kind == Kind::While || kind == Kind::Begin {
                self@.lemma_reads_declares(a);
            }
            if kind == Kind::Eof || !(kind == Kind::Var || kind == Kind::Identifier || kind
                == Kind::Read || kind == Kind::Print || kind == Kind::Assert || kind == Kind::Return
                || kind == Kind::While || kind == Kind::If || kind == Kind::Begin) {
                self@.lemma_reads_declares(a);
            }
            self@.lemma_declares_trans(a, old(self)@);
        }
        r
    }
}

} // verus!
