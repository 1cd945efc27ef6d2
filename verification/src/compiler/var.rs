use crate::base::ast::{
    ASTNode, VarReassignmentExprNode, VariableDeclNode, VariableNameExpressionNode,
};
use crate::compiler::lowering::{lower_assignment, lower_var_decl, lower_var_name};
use crate::compiler::Compiler;
use crate::text::{join4, join6};
use vstd::prelude::*;

verus! {

impl Compiler {
    /// Generates the code of an assignment.
    pub fn compile_var_assignment(&mut self, expr: &VarReassignmentExprNode)
        ensures
            final(self).generated(old(self), lower_assignment(*expr, old(self)@)),
        decreases expr, 0nat,
    {
        match &*expr.variable_to_reassign {
            ASTNode::VarName(node) => {
                if node.s_type.storage() {
                    self.compile_ast(&*expr.new_value);
                    let name = Self::storage_of(self.scope_name(), node.id.lexeme.as_str());
                    let value = Self::last_of(expr.new_value.r_type());
                    self.emit(join4(name.as_str(), " = ", value.as_str(), ";"));
                } else {
                    self.fail_at(node.position, "Expected variable name, found function name");
                }
            },
            ASTNode::ArrayRef(node) => {
                let label = self.advance_label();
                let n = Self::number(label);
                self.compile_ast(&*node.index);
                self.emit(crate::text::join3("int tmp_", n.as_str(), " = last_int;"));
                self.compile_ast(&*expr.new_value);
                let name = Self::storage_of(self.scope_name(), node.array.lexeme.as_str());
                let value = Self::last_of(expr.new_value.r_type());
                self.emit(
                    join6(name.as_str(), "[tmp_", n.as_str(), "] = ", value.as_str(), ";"),
                );
            },
            other => {
                self.push_c_error(other, "Unknown variable to reassign");
            },
        }
    }

    /// Generates the code of a declaration.
    pub fn compile_var_decl(&mut self, expr: &VariableDeclNode)
        ensures
            final(self).generated(old(self), lower_var_decl(*expr, old(self)@)),
        decreases expr, 0nat,
    {
        let c_type = expr.var_type.to_c_type();
        let name = Self::storage_of(self.scope_name(), expr.id.lexeme.as_str());
        self.emit(join4(c_type.as_str(), " ", name.as_str(), ";"));
        match &expr.value {
            Some(e) => {
                self.compile_ast(&*e.child);
                let name = Self::storage_of(self.scope_name(), expr.id.lexeme.as_str());
                let value = Self::last_of(e.child.r_type());
                self.emit(join4(name.as_str(), " = ", value.as_str(), ";"));
            },
            None => {},
        }
    }

    /// Generates the code of a name that is read.
    pub fn compile_var_name(&mut self, expr: &VariableNameExpressionNode)
        ensures
            final(self).generated(old(self), lower_var_name(*expr, old(self)@)),
    {
        if expr.s_type.storage() {
            let target = Self::last_of(expr.r_type);
            let name = Self::storage_of(self.scope_name(), expr.id.lexeme.as_str());
            self.emit(join4(target.as_str(), " = ", name.as_str(), ";"));
        } else {
            self.fail_at(expr.position, "Expected variable name, found function name");
        }
    }
}

} // verus!
