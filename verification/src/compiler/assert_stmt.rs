use crate::base::ast::AssertStmtNode;
use crate::compiler::lowering::lower_assert;
use crate::compiler::Compiler;
use crate::text::copy_str;
use vstd::prelude::*;

verus! {

impl Compiler {
    /// Compiles an assert node, runs `assert` from c std
    pub fn compile_assert(&mut self, node: &AssertStmtNode)
        ensures
            final(self).generated(old(self), lower_assert(*node, old(self)@)),
        decreases node, 0nat,
    {
        self.compile_ast(&*node.expr);
        self.emit(copy_str("assert(last_bool);"));
    }
}

} // verus!
