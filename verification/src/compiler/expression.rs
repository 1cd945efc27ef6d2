use crate::base::ast::{BinaryExprNode, BinaryExprType, LiteralExprNode, UnaryExprNode};
use crate::base::types::{SimpleType, Type};
use crate::compiler::lowering::{
    element_c_type, lower_binary, lower_literal, lower_unary, operands_error, operation,
};
use crate::compiler::Compiler;
use crate::text::{copy_str, join3, join4, join5, join6};
use vstd::prelude::*;

verus! {

fn operands_error_of(op: BinaryExprType, l: Type, r: Type) -> (s: String)
    ensures
        s@ == operands_error(op, l, r),
{
    let l_array = match l {
        Type::Array(_) => true,
        Type::Simple(_) => false,
    };
    let r_array = match r {
        Type::Array(_) => true,
        Type::Simple(_) => false,
    };
    if l_array || r_array {
        return copy_str("Binary expressions between arrays are not allowed");
    }
    let l_void = match l.internal() {
        SimpleType::Void => true,
        _ => false,
    };
    let r_void = match r.internal() {
        SimpleType::Void => true,
        _ => false,
    };
    if l_void || r_void {
        return copy_str("Binary expressions between void oprands are not allowed");
    }
    let name = op.to_string();
    let lt = l.to_string();
    let rt = r.to_string();
    join6("Invalid operand types for ", name.as_str(), ": ", lt.as_str(), " and ", rt.as_str())
}

fn operation_of(op: BinaryExprType, t: Type, label: usize) -> (s: String)
    ensures
        s@ == operation(op, t, label as int),
{
    let n = Compiler::number(label);
    if t == Type::Simple(SimpleType::String) {
        join5("last_str = strcat(left_arm_", n.as_str(), ", right_arm_", n.as_str(), ");")
    } else {
        let target = Compiler::last_of(t);
        let operator = op.to_c_operator();
        let head = join5(target.as_str(), " = left_arm_", n.as_str(), " ", operator.as_str());
        join4(head.as_str(), " right_arm_", n.as_str(), ";")
    }
}

fn element_c_type_of(t: SimpleType) -> (s: String)
    ensures
        s@ == element_c_type(t),
{
    match t {
        SimpleType::Int => copy_str("int"),
        SimpleType::String => copy_str("char*"),
        SimpleType::Bool => copy_str("bool"),
        SimpleType::Real => copy_str("float"),
        SimpleType::Void => copy_str("void"),
    }
}

impl Compiler {
    /// Generates the code of a binary expression.
    pub fn compile_expression(&mut self, expr: &BinaryExprNode)
        ensures
            final(self).generated(old(self), lower_binary(*expr, old(self)@)),
        decreases expr, 0nat,
    {
        let label = self.advance_label();
        let n = Self::number(label);
        let l = expr.left.r_type();
        let r = expr.right.r_type();
        let lt = l.to_c_type();
        self.emit(join4(lt.as_str(), " left_arm_", n.as_str(), ";"));
        let rt = r.to_c_type();
        self.emit(join4(rt.as_str(), " right_arm_", n.as_str(), ";"));
        self.compile_ast(&*expr.left);
        let ll = Self::last_of(l);
        self.emit(join5("left_arm_", n.as_str(), " = ", ll.as_str(), ";"));
        self.compile_ast(&*expr.right);
        let lr = Self::last_of(r);
        self.emit(join5("right_arm_", n.as_str(), " = ", lr.as_str(), ";"));
        let legal = match expr.op_type.result_type(l, r) {
            Some(t) => t == expr.r_type,
            None => false,
        };
        if legal {
            self.emit(operation_of(expr.op_type, expr.r_type, label));
        } else {
            let description = operands_error_of(expr.op_type, l, r);
            self.fail_at(expr.position, description.as_str());
        }
    }

    /// Generates the code of a literal.
    pub fn compile_lit(&mut self, expr: &LiteralExprNode)
        ensures
            final(self).generated(old(self), lower_literal(*expr, old(self)@)),
    {
        match expr.r_type {
            Type::Simple(SimpleType::Void) => {
                self.fail_at(expr.position, "literal of type void?");
            },
            Type::Simple(SimpleType::String) => {
                self.emit(copy_str("last_str = malloc(128 * sizeof(char));"));
                let value = expr.value.to_c_lit();
                self.emit(join3("strcpy(last_str, ", value.as_str(), ");"));
            },
            Type::Simple(_) => {
                let target = Self::last_of(expr.r_type);
                let value = expr.value.to_c_lit();
                self.emit(join4(target.as_str(), " = ", value.as_str(), ";"));
            },
            Type::Array(SimpleType::Void) => {
                self.fail_at(expr.position, "Found array of void expressions");
            },
            Type::Array(a) => {
                let label = self.advance_label();
                let n = Self::number(label);
                let element = element_c_type_of(a);
                let value = expr.value.to_c_lit();
                self.emit(
                    join6(
                        element.as_str(),
                        " tmp_",
                        n.as_str(),
                        "[] = ",
                        value.as_str(),
                        ";",
                    ),
                );
                let target = Self::last_of(expr.r_type);
                self.emit(join4(target.as_str(), " = tmp_", n.as_str(), ";"));
            },
        }
    }

    /// Generates the code of a negation.
    pub fn compile_unary(&mut self, expr: &UnaryExprNode)
        ensures
            final(self).generated(old(self), lower_unary(*expr, old(self)@)),
        decreases expr, 0nat,
    {
        self.compile_ast(&*expr.expression);
        self.emit(copy_str("last_bool = !last_bool;"));
    }
}

} // verus!
