use crate::base::ast::ASTNode;
use crate::base::errors::SyntaxError;
use crate::parser::Parser;
use vstd::prelude::*;

verus! {

impl Parser {
    /// Parses the main block. The current token is its `begin`.
    pub fn parse_main_block(&mut self) -> (r: Result<ASTNode, Vec<SyntaxError>>)
        ensures
            final(self)@.reads_on(old(self)@),
            match r {
                Ok(node) => node.well_typed() && node is Block,
                Err(errors) => errors@.len() >= 1,
            },
            crate::parser::syntax::outcome_as(
                r,
                final(self)@,
                crate::parser::syntax::read_block_with(old(self)@, Seq::empty()),
            ),
    {
        self.parse_block()
    }
}

} // verus!
