use crate::base::ast::ArrayRefExpr;
use crate::base::types::Type;
use crate::compiler::lowering::lower_array_ref;
use crate::compiler::Compiler;
use crate::text::join4;
use vstd::prelude::*;

verus! {

impl Compiler {
    /// Generates the code of an element of an array that is read.
    pub fn compile_array_ref(&mut self, arr: &ArrayRefExpr)
        ensures
            final(self).generated(old(self), lower_array_ref(*arr, old(self)@)),
        decreases arr, 0nat,
    {
        self.compile_ast(&*arr.index);
        let target = Self::last_of(Type::Simple(arr.r_type.internal()));
        let name = Self::storage_of(self.scope_name(), arr.array.lexeme.as_str());
        self.emit(join4(target.as_str(), " = ", name.as_str(), "[last_int];"));
    }
}

} // verus!
