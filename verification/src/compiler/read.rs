use crate::base::ast::{ASTNode, ReadStmtNode};
use crate::base::types::{SimpleType, Type};
use crate::compiler::lowering::{lower_read, read_instruction};
use crate::compiler::print::format_for;
use crate::compiler::Compiler;
use crate::text::{copy_str, join2, join6};
use vstd::prelude::*;

verus! {

fn read_instruction_of(t: SimpleType, place: &str) -> (s: String)
    ensures
        s@ == read_instruction(t, place@),
{
    let format = format_for(t);
    let address = match t {
        SimpleType::String => copy_str(""),
        _ => copy_str("&"),
    };
    join6("scanf(\"", format.as_str(), "\", ", address.as_str(), place, ");")
}

impl Compiler {
    /// Generates the code of a read statement.
    pub fn compile_read(&mut self, node: &ReadStmtNode)
        ensures
            final(self).generated(old(self), lower_read(*node, old(self)@)),
        decreases node, 0nat,
    {
        match &*node.variable_to_read_in {
            ASTNode::VarName(inode) => match inode.r_type {
                Type::Array(_) => {
                    self.fail_at(node.position, "Trying to read into whole array");
                },
                Type::Simple(SimpleType::Void) => {
                    self.fail_at(node.position, "Trying to read into void expression");
                },
                Type::Simple(t) => {
                    if inode.s_type.storage() {
                        let place = Self::storage_of(self.scope_name(), inode.id.lexeme.as_str());
                        self.emit(read_instruction_of(t, place.as_str()));
                    } else {
                        self.fail_at(node.position, "Expected variable name, found function name");
                    }
                },
            },
            ASTNode::ArrayRef(inode) => {
                self.compile_ast(&*inode.index);
                match inode.r_type {
                    Type::Array(_) => {
                        self.fail_at(node.position, "Trying to read into whole array");
                    },
                    Type::Simple(SimpleType::Void) => {
                        self.fail_at(node.position, "Trying to read into void expression");
                    },
                    Type::Simple(t) => {
                        let name = Self::storage_of(self.scope_name(), inode.array.lexeme.as_str());
                        let place = join2(name.as_str(), "[last_int]");
                        self.emit(read_instruction_of(t, place.as_str()));
                    },
                }
            },
            _ => {
                self.fail_at(node.position, "Trying to read into an unknown variable");
            },
        }
    }
}

} // verus!
