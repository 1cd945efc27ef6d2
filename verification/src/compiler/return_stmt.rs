use crate::base::ast::ReturnStmtNode;
use crate::compiler::lowering::lower_return;
use crate::compiler::Compiler;
use crate::text::{copy_str, join4};
use vstd::prelude::*;

verus! {

impl Compiler {
    /// Generates the code of a return statement.
    pub fn compile_return(&mut self, expr: &ReturnStmtNode)
        ensures
            final(self).generated(old(self), lower_return(*expr, old(self)@)),
        decreases expr, 0nat,
    {
        match &expr.value {
            Some(var) => {
                self.compile_ast(&**var);
                let target = Self::f_ret_value(copy_str(self.scope_name()));
                let value = Self::last_of(var.r_type());
                self.emit(join4(target.as_str(), " = ", value.as_str(), ";"));
            },
            None => {
                self.emit(copy_str("return;"));
            },
        }
    }
}

} // verus!
