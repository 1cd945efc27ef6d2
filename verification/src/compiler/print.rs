use crate::base::ast::PrintStmtNode;
use crate::base::types::{SimpleType, Type};
use crate::compiler::lowering::{element_name, format_of, lower_print, print_instruction};
use crate::compiler::Compiler;
use crate::text::{copy_str, join3, join5};
use vstd::prelude::*;

verus! {

/// The conversion that reads and writes a value of a base type.
pub fn format_for(t: SimpleType) -> (s: String)
    ensures
        s@ == format_of(t),
{
    match t {
        SimpleType::Int => copy_str("%d"),
        SimpleType::String => copy_str("%s"),
        SimpleType::Bool => copy_str("%d"),
        SimpleType::Real => copy_str("%f"),
        SimpleType::Void => copy_str("%d"),
    }
}

fn element_name_of(t: SimpleType) -> (s: String)
    ensures
        s@ == element_name(t),
{
    match t {
        SimpleType::Int => copy_str("int"),
        SimpleType::Real => copy_str("reals"),
        SimpleType::String => copy_str("string"),
        SimpleType::Bool => copy_str("bool"),
        SimpleType::Void => copy_str("void"),
    }
}

fn print_instruction_of(t: Type) -> (s: String)
    ensures
        s@ == print_instruction(t),
{
    match t {
        Type::Simple(a) => {
            let format = format_for(a);
            let value = Compiler::last_of(t);
            join5("printf(\"", format.as_str(), "\\n\", ", value.as_str(), ");")
        },
        Type::Array(a) => {
            let name = element_name_of(a);
            join3("printf(\"array of ", name.as_str(), "\");")
        },
    }
}

impl Compiler {
    /// Generates the code of a print statement.
    pub fn compile_print(&mut self, node: &PrintStmtNode)
        ensures
            final(self).generated(old(self), lower_print(*node, old(self)@)),
        decreases node, 0nat,
    {
        self.compile_ast(&*node.to_print);
        let t = node.to_print.r_type();
        if t == Type::Simple(SimpleType::Void) {
            self.push_c_error(&*node.to_print, "Unable to print a void expression");
        } else {
            self.emit(print_instruction_of(t));
        }
    }
}

} // verus!
