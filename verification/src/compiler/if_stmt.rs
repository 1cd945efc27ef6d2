use crate::base::ast::{ElseStmtNode, IfStmtNode};
use crate::compiler::lowering::{lower, lower_if};
use crate::compiler::Compiler;
use crate::text::{join2, join3, join5};
use vstd::prelude::*;

verus! {

impl Compiler {
    /// Generates the code of an if statement.
    pub fn compile_if(&mut self, node: &IfStmtNode)
        ensures
            final(self).generated(old(self), lower_if(*node, old(self)@)),
        decreases node, 0nat,
    {
        let label = self.advance_label();
        let cur = Self::number(label);
        self.emit(join5("void* thenptr_", cur.as_str(), " = &&then_", cur.as_str(), ";"));
        self.emit(join5("void* endifptr_", cur.as_str(), " = &&endif_", cur.as_str(), ";"));
        self.compile_ast(&*node.guard);
        self.emit(join3("if (last_bool) goto *thenptr_", cur.as_str(), ";"));
        match &node.else_stmt {
            Some(else_node) => {
                self.compile_ast(&**else_node);
            },
            None => {},
        }
        self.emit(join3("goto *endifptr_", cur.as_str(), ";"));
        self.emit_label(join2("then_", cur.as_str()));
        self.compile_ast(&*node.then_stmt);
        self.emit_label(join2("endif_", cur.as_str()));
    }

    /// Generates the code of the other branch of an if statement.
    pub fn compile_else(&mut self, node: &ElseStmtNode)
        ensures
            final(self).generated(old(self), lower(*node.block, old(self)@)),
        decreases node, 0nat,
    {
        self.compile_ast(&*node.block);
    }
}

} // verus!
