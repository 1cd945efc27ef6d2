use crate::base::ast::{CallArg, FunctionCallNode, FunctionDeclNode};
use crate::base::symbol_table::SymbolTable;
use crate::compiler::lowering::{
    entry, leave, linkage, lower_args, lower_function, lower_function_call, lower_params,
};
use crate::compiler::Compiler;
use crate::text::{copy_str, join2, join3, join4, join5};
use vstd::prelude::*;

verus! {

impl Compiler {
    /// Declares the variables of the parameters of the function or
    /// procedure `name`.
    pub fn compile_params(&mut self, params: &SymbolTable, name: &str)
        ensures
            final(self).generated(old(self), lower_params(params.symbols@, 0, name@, old(self)@)),
    {
        let mut i: usize = 0;
        while i < params.symbols.len()
            invariant
                i <= params.symbols.len(),
                self.text() == old(self).text(),
                self.syntax_errors() == old(self).syntax_errors(),
                lower_params(params.symbols@, i as int, name@, self@) == lower_params(
                    params.symbols@,
                    0,
                    name@,
                    old(self)@,
                ),
            decreases params.symbols.len() - i,
        {
            let sym = &params.symbols[i];
            let c_type = sym.r_type.to_c_type();
            let variable = Self::storage_of(name, sym.name.as_str());
            self.emit(join4(c_type.as_str(), " ", variable.as_str(), ";"));
            i = i + 1;
        }
    }

    /// Emits what stands before the body of the function or procedure
    /// `name`.
    pub fn compile_entry(&mut self, name: &str)
        ensures
            final(self).generated(old(self), entry(name@, old(self)@)),
    {
        let ptr = Self::f_ret_ptr(copy_str(name));
        self.emit(join3("void* ", ptr.as_str(), ";"));
        self.emit(join5("void* fptr_", name, " = &&f_", name, ";"));
        self.emit_label(join2("f_", name));
    }

    /// Emits what stands behind the body of the function or procedure
    /// `name`.
    pub fn compile_leave(&mut self, name: &str)
        ensures
            final(self).generated(old(self), leave(name@, old(self)@)),
    {
        let ptr = Self::f_ret_ptr(copy_str(name));
        self.emit(join3("goto *", ptr.as_str(), ";"));
    }

    /// Generates the code of the declaration of a function.
    pub fn compile_function(&mut self, f: &FunctionDeclNode)
        ensures
            final(self).generated(old(self), lower_function(*f, old(self)@)),
        decreases f, 0nat,
    {
        self.enter(f.name.as_str());
        self.compile_params(&f.args, f.name.as_str());
        let c_type = f.r_type.to_c_type();
        let value = Self::f_ret_value(f.name.clone());
        self.emit(join4(c_type.as_str(), " ", value.as_str(), ";"));
        self.compile_entry(f.name.as_str());
        self.compile_ast(&*f.block);
        self.compile_leave(f.name.as_str());
    }

    /// Generates the code of the arguments of a call of `target`.
    #[verifier::loop_isolation(false)]
    pub fn compile_args(&mut self, args: &Vec<CallArg>, target: &str)
        ensures
            final(self).generated(old(self), lower_args(args@, 0, target@, old(self)@)),
        decreases args, 1nat,
    {
        let mut i: usize = 0;
        while i < args.len()
            invariant
                i <= args.len(),
                self.text() == old(self).text(),
                self.syntax_errors() == old(self).syntax_errors(),
                lower_args(args@, i as int, target@, self@) == lower_args(
                    args@,
                    0,
                    target@,
                    old(self)@,
                ),
            decreases args.len() - i,
        {
            let arg = &args[i];
            self.compile_ast(&arg.value);
            let variable = Self::storage_of(target, arg.name.as_str());
            let value = Self::last_of(arg.value.r_type());
            self.emit(join4(variable.as_str(), " = ", value.as_str(), ";"));
            i = i + 1;
        }
    }

    /// Emits the linkage of a call of `target` with the label `label`.
    pub fn compile_linkage(&mut self, target: &str, label: usize)
        ensures
            final(self).generated(old(self), linkage(target@, label as int, old(self)@)),
    {
        let n = Self::number(label);
        let ptr = Self::f_ret_ptr(copy_str(target));
        self.emit(join4(ptr.as_str(), " = &&ret_", n.as_str(), ";"));
        self.emit(join3("goto f_", target, ";"));
        self.emit_label(join2("ret_", n.as_str()));
    }

    /// Generates the code of a call of a function.
    pub fn compile_function_call(&mut self, f: &FunctionCallNode)
        ensures
            final(self).generated(old(self), lower_function_call(*f, old(self)@)),
        decreases f, 2nat,
    {
        let label = self.advance_label();
        self.compile_args(&f.args, f.target.as_str());
        self.compile_linkage(f.target.as_str(), label);
        let target = Self::last_of(f.r_type);
        let value = Self::f_ret_value(f.target.clone());
        self.emit(join4(target.as_str(), " = ", value.as_str(), ";"));
    }
}

} // verus!
