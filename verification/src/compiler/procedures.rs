use crate::base::ast::{ProcedureCallNode, ProcedureDeclNode};
use crate::compiler::lowering::{lower_procedure, lower_procedure_call};
use crate::compiler::Compiler;
use vstd::prelude::*;

verus! {

impl Compiler {
    /// Generates the code of the declaration of a procedure.
    pub fn compile_procedure(&mut self, f: &ProcedureDeclNode)
        ensures
            final(self).generated(old(self), lower_procedure(*f, old(self)@)),
        decreases f, 0nat,
    {
        self.enter(f.name.as_str());
        self.compile_params(&f.args, f.name.as_str());
        self.compile_entry(f.name.as_str());
        self.compile_ast(&*f.block);
        self.compile_leave(f.name.as_str());
    }

    /// Generates the code of a call of a procedure.
    pub fn compile_procedure_call(&mut self, f: &ProcedureCallNode)
        ensures
            final(self).generated(old(self), lower_procedure_call(*f, old(self)@)),
        decreases f, 2nat,
    {
        let label = self.advance_label();
        self.compile_args(&f.args, f.target.as_str());
        self.compile_linkage(f.target.as_str(), label);
    }
}

} // verus!
