use crate::base::ast::ProgramNameNode;
use crate::compiler::lowering::lower_program_name;
use crate::compiler::Compiler;
use crate::text::join3;
use vstd::prelude::*;

verus! {

impl Compiler {
    /// Compiles the program name as an output that states the program
    /// name
    pub fn compile_program_name(&mut self, node: &ProgramNameNode)
        ensures
            final(self).generated(old(self), lower_program_name(*node, old(self)@)),
    {
        self.emit(join3("printf(\"", node.name.lexeme.as_str(), "\");"));
    }
}

} // verus!
