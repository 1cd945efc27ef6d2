use crate::base::ast::{FunctionDeclNode, ProcedureDeclNode, ProgramNode};
use crate::compiler::lowering::{lower_functions, lower_procedures, lower_program, prologue};
use crate::compiler::Compiler;
use crate::text::copy_str;
use vstd::prelude::*;

verus! {

impl Compiler {
    /// Declares the variables that pass values, and emits the jump to
    /// the main block.
    pub fn compile_prologue(&mut self)
        ensures
            final(self).generated(old(self), prologue(old(self)@)),
    {
        self.emit(copy_str("int last_int;"));
        self.emit(copy_str("float last_float;"));
        self.emit(copy_str("bool last_bool;"));
        self.emit(copy_str("char* last_str;"));
        self.emit(copy_str("int* last_int_arr;"));
        self.emit(copy_str("float* last_float_arr;"));
        self.emit(copy_str("bool* last_bool_arr;"));
        self.emit(copy_str("char** last_str_arr;"));
        self.emit(copy_str("void* main_block_ptr = &&main_block;"));
        self.emit(copy_str("goto *main_block_ptr;"));
    }

    /// Generates the code of functions, one after the other.
    #[verifier::loop_isolation(false)]
    pub fn compile_functions(&mut self, functions: &Vec<FunctionDeclNode>)
        ensures
            final(self).generated(old(self), lower_functions(functions@, 0, old(self)@)),
        decreases functions, 1nat,
    {
        let mut i: usize = 0;
        while i < functions.len()
            invariant
                i <= functions.len(),
                self.text() == old(self).text(),
                self.syntax_errors() == old(self).syntax_errors(),
                lower_functions(functions@, i as int, self@) == lower_functions(
                    functions@,
                    0,
                    old(self)@,
                ),
            decreases functions.len() - i,
        {
            self.compile_function(&functions[i]);
            i = i + 1;
        }
    }

    /// Generates the code of procedures, one after the other.
    #[verifier::loop_isolation(false)]
    pub fn compile_procedures(&mut self, procedures: &Vec<ProcedureDeclNode>)
        ensures
            final(self).generated(old(self), lower_procedures(procedures@, 0, old(self)@)),
        decreases procedures, 1nat,
    {
        let mut i: usize = 0;
        while i < procedures.len()
            invariant
                i <= procedures.len(),
                self.text() == old(self).text(),
                self.syntax_errors() == old(self).syntax_errors(),
                lower_procedures(procedures@, i as int, self@) == lower_procedures(
                    procedures@,
                    0,
                    old(self)@,
                ),
            decreases procedures.len() - i,
        {
            self.compile_procedure(&procedures[i]);
            i = i + 1;
        }
    }

    /// Generates the code of a program.
    pub fn compile_program(&mut self, node: &ProgramNode)
        ensures
            final(self).generated(old(self), lower_program(*node, old(self)@)),
        decreases node, 3nat,
    {
        self.compile_prologue();
        self.compile_functions(&node.functions);
        self.compile_procedures(&node.procedures);
        self.enter("main");
        self.emit_label(copy_str("main_block"));
        self.compile_statements(&node.main_block.statements);
        self.emit(copy_str("return 0;"));
    }
}

} // verus!
