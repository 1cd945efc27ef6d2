use crate::base::ast::ASTNode;
use crate::base::errors::SyntaxError;
use crate::base::symbol_table::SymbolType;
use crate::base::token::Kind;
use crate::parser::rules::procedure_call;
use crate::parser::state::statement_parsed;
use crate::parser::syntax::{
    lemma_single_error, outcome_as, read_procedure, read_procedure_call, read_signature,
    statement_as,
};
use crate::parser::Parser;
use crate::text::join2;
use vstd::prelude::*;

verus! {

impl Parser {
    /// Parses the declaration of a procedure. The current token is
    /// `procedure`; the declaration ends with the `end` of its body.
    /// Once the signature is read the procedure is declared in the
    /// innermost scope; the body is parsed in a scope of its own that
    /// holds the parameters.
    pub fn parse_procedure(&mut self) -> (r: Result<ASTNode, Vec<SyntaxError>>)
        ensures
            statement_parsed(old(self)@, final(self)@, r),
            r matches Ok(node) ==> node is ProcedureDecl,
            outcome_as(r, final(self)@, read_procedure(old(self)@)),
    {
        reveal(read_procedure);
        self.settled();
        let (id, args, r_type) = match self.parse_signature(false) {
            Ok(signature) => signature,
            Err(errors) => {
                proof {
                    self@.lemma_reads_declares(old(self)@);
                    lemma_single_error(errors@, read_signature(old(self)@, false).result->Err_0);
                }
                return Err(errors);
            },
        };
        let ghost signed = self@;
        let r = self.parse_body(id, args, r_type, false);
        proof {
            signed.lemma_reads_declares(old(self)@);
            self@.lemma_declares_trans(signed, old(self)@);
        }
        r
    }

    /// Parses a call of the procedure that the current token names, up
    /// to the `;` behind it. The call must have as many arguments as
    /// the procedure has parameters, each of the type of its parameter.
    pub fn parse_procedure_call(&mut self) -> (r: Result<ASTNode, Vec<SyntaxError>>)
        ensures
            final(self)@.reads_on(old(self)@),
            match r {
                Ok(node) => node.well_typed() && node is ProcedureCallStmt,
                Err(errors) => errors@.len() == 1,
            },
            statement_as(r, final(self)@, read_procedure_call(old(self)@)),
    {
        reveal(read_procedure_call);
        self.settled();
        let f_name = self.current().clone();
        match self.resolve_symbol(f_name.lexeme.as_str()) {
            Some(f_sym) => {
                match f_sym.s_type {
                    SymbolType::Procedure => {},
                    _ => {
                        let description = join2(
                            f_name.lexeme.as_str(),
                            " exists, but is not a procedure",
                        );
                        return Err(self.fail(description.as_str()));
                    },
                }
                self.expect_advance(Kind::LeftParen)?;
                let params = self.parse_call_parameters()?;
                assert(crate::parser::rules::types_of(params@)
                    =~= crate::parser::grammar::value_types(
                    crate::parser::grammar::summaries(params@),
                ));
                match f_sym.params {
                    Some(declared) => {
                        let ghost given = params@;
                        let call = self.lift(
                            procedure_call(f_name.position, f_sym.name, &declared, params),
                        )?;
                        assert(call matches ASTNode::ProcedureCallStmt(f)
                            && crate::base::tree::arguments(f.args@)
                            =~= crate::parser::grammar::paired(
                            declared.entries(),
                            crate::parser::grammar::summaries(given),
                        ));
                        self.expect_current(Kind::RightParen)?;
                        self.expect_advance(Kind::Semicolon)?;
                        Ok(call)
                    },
                    None => Err(self.fail("Initialized function with empty arg table")),
                }
            },
            None => {
                let description = join2("Unknown procedure ", f_name.lexeme.as_str());
                Err(self.fail(description.as_str()))
            },
        }
    }
}

} // verus!
