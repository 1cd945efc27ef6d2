use crate::base::ast::{ASTNode, BlockNode};
use crate::compiler::lowering::lower_statements;
use crate::compiler::Compiler;
use vstd::prelude::*;

verus! {

impl Compiler {
    /// Generates the code of statements, one after the other.
    #[verifier::loop_isolation(false)]
    pub fn compile_statements(&mut self, statements: &Vec<ASTNode>)
        ensures
            final(self).generated(old(self), lower_statements(statements@, 0, old(self)@)),
        decreases statements, 1nat,
    {
        let mut i: usize = 0;
        while i < statements.len()
            invariant
                i <= statements.len(),
                self.text() == old(self).text(),
                self.syntax_errors() == old(self).syntax_errors(),
                lower_statements(statements@, i as int, self@) == lower_statements(
                    statements@,
                    0,
                    old(self)@,
                ),
            decreases statements.len() - i,
        {
            self.compile_ast(&statements[i]);
            i = i + 1;
        }
    }

    /// Compiles a block, basically just recursively compiles the
    /// innser statements since the scoping is provided by the
    /// variable names
    pub fn compile_block(&mut self, block: &BlockNode)
        ensures
            final(self).generated(old(self), lower_statements(block.statements@, 0, old(self)@)),
        decreases block, 2nat,
    {
        self.compile_statements(&block.statements);
    }
}

} // verus!
