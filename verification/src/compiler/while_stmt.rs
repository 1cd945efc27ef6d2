use crate::base::ast::WhileStmtNode;
use crate::compiler::lowering::lower_while;
use crate::compiler::Compiler;
use crate::text::{join2, join3, join5};
use vstd::prelude::*;

verus! {

impl Compiler {
    /// Generates the code of a while loop.
    pub fn compile_while(&mut self, node: &WhileStmtNode)
        ensures
            final(self).generated(old(self), lower_while(*node, old(self)@)),
        decreases node, 0nat,
    {
        let number = self.advance_label();
        let label = Self::number(number);
        self.emit(
            join5("void* endwhile_ptr_", label.as_str(), " = &&endwhile_", label.as_str(), ";"),
        );
        self.emit(join5("void* guard_ptr_", label.as_str(), " = &&guard_", label.as_str(), ";"));
        self.emit_label(join2("guard_", label.as_str()));
        self.compile_ast(&*node.guard);
        self.emit(join3("if (!last_bool) goto *endwhile_ptr_", label.as_str(), ";"));
        self.compile_ast(&*node.block);
        self.emit(join3("goto *guard_ptr_", label.as_str(), ";"));
        self.emit_label(join2("endwhile_", label.as_str()));
    }
}

} // verus!
