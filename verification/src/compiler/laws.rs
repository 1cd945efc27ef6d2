//! What holds of the code generator on every syntax tree.

use crate::base::ast::{
    integer, ASTNode, BinaryExprNode, CallArg, FunctionCallNode, FunctionDeclNode,
    ProcedureDeclNode,
};
use crate::base::objects::Object;
use crate::base::symbol_table::Symbol;
use crate::compiler::lowering::{
    entry, last, lower, lower_args, lower_binary, lower_function, lower_function_call,
    lower_functions, lower_literal, lower_params, lower_procedure, lower_procedures,
    lower_statements, next_label, num, prologue, ret_ptr, ret_value, storage, Gen,
};
use crate::text::signed_decimal;
use vstd::prelude::*;

verus! {

/// Whether two states of a generator hold the same errors.
pub open spec fn same_errors(a: Gen, b: Gen) -> bool {
    a.errors == b.errors && a.sane == b.sane
}

proof fn lemma_params_clean(params: Seq<Symbol>, i: int, name: Seq<char>, g: Gen)
    ensures
        same_errors(lower_params(params, i, name, g), g),
    decreases params.len() - i,
{
    if 0 <= i < params.len() {
        lemma_params_clean(
            params,
            i + 1,
            name,
            g.emit(
                params[i].r_type.c_type() + " "@ + crate::compiler::lowering::storage(
                    name,
                    params[i].name@,
                ) + ";"@,
            ),
        );
    }
}

/// The code generator finds no error in a tree that obeys the type
/// rules: it only adds code.
pub proof fn lemma_well_typed_clean(node: ASTNode, g: Gen)
    requires
        node.well_typed(),
    ensures
        same_errors(lower(node, g), g),
    decreases node, 0nat,
{
    match node {
        ASTNode::Program(p) => {
            let g0 = prologue(g);
            lemma_functions_clean(p.functions@, 0, g0);
            let g1 = lower_functions(p.functions@, 0, g0);
            lemma_procedures_clean(p.procedures@, 0, g1);
            let g2 = lower_procedures(p.procedures@, 0, g1);
            let g3 = g2.enter("main"@).emit_label("main_block"@);
            lemma_statements_clean(p.main_block.statements@, 0, g3);
            assert(same_errors(g0, g));
            assert(same_errors(g1, g0));
            assert(same_errors(g2, g1));
            assert(same_errors(g3, g2));
            assert(lower(node, g) == crate::compiler::lowering::lower_program(p, g));
            assert(crate::compiler::lowering::lower_program(p, g) == lower_statements(
                p.main_block.statements@,
                0,
                g3,
            ).emit("return 0;"@));
        },
        ASTNode::ProgramName(_) => {
        },
        ASTNode::FunctionDecl(f) => {
            assert(lower(node, g) == lower_function(f, g));
            lemma_function_clean(f, g);
        },
        ASTNode::ProcedureDecl(p) => {
            assert(lower(node, g) == lower_procedure(p, g));
            lemma_procedure_clean(p, g);
        },
        ASTNode::Block(b) => {
            lemma_statements_clean(b.statements@, 0, g);
        },
        ASTNode::BinaryExpression(e) => {
            assert(lower(node, g) == lower_binary(e, g));
            let n = g.label;
            let l = e.left.spec_r_type();
            let r = e.right.spec_r_type();
            let g1 = g.bump().emit(
                l.c_type() + " left_arm_"@ + crate::compiler::lowering::num(n) + ";"@,
            ).emit(r.c_type() + " right_arm_"@ + crate::compiler::lowering::num(n) + ";"@);
            lemma_well_typed_clean(*e.left, g1);
            let g2 = lower(*e.left, g1).emit(
                "left_arm_"@ + crate::compiler::lowering::num(n) + " = "@
                    + crate::compiler::lowering::last(l) + ";"@,
            );
            lemma_well_typed_clean(*e.right, g2);
        },
        ASTNode::VarName(_) => {
        },
        ASTNode::ArrayRef(a) => {
            assert(lower(node, g) == crate::compiler::lowering::lower_array_ref(a, g));
            lemma_well_typed_clean(*a.index, g);
        },
        ASTNode::Literal(_) => {
        },
        ASTNode::UnaryExpression(u) => {
            assert(lower(node, g) == crate::compiler::lowering::lower_unary(u, g));
            lemma_well_typed_clean(*u.expression, g);
        },
        ASTNode::VarReassignment(a) => {
            assert(lower(node, g) == crate::compiler::lowering::lower_assignment(a, g));
            match *a.variable_to_reassign {
                ASTNode::VarName(v) => {
                    assert(a.variable_to_reassign.well_typed());
                    lemma_well_typed_clean(*a.new_value, g);
                },
                ASTNode::ArrayRef(r) => {
                    assert(a.variable_to_reassign.well_typed());
                    lemma_well_typed_clean(*r.index, g.bump());
                    let g1 = lower(*r.index, g.bump()).emit(
                        "int tmp_"@ + crate::compiler::lowering::num(g.label) + " = last_int;"@,
                    );
                    lemma_well_typed_clean(*a.new_value, g1);
                },
                _ => {},
            }
        },
        ASTNode::VariableDecl(d) => {
            assert(lower(node, g) == crate::compiler::lowering::lower_var_decl(d, g));
            match d.value {
                Some(e) => {
                    let g1 = g.emit(
                        d.var_type.c_type() + " "@ + crate::compiler::lowering::storage(
                            g.scope,
                            d.id.lexeme@,
                        ) + ";"@,
                    );
                    lemma_well_typed_clean(*e.child, g1);
                },
                None => {},
            }
        },
        ASTNode::WhileStmt(w) => {
            assert(lower(node, g) == crate::compiler::lowering::lower_while(w, g));
            let n = crate::compiler::lowering::num(g.label);
            let g1 = g.bump().emit("void* endwhile_ptr_"@ + n + " = &&endwhile_"@ + n + ";"@).emit(
                "void* guard_ptr_"@ + n + " = &&guard_"@ + n + ";"@,
            ).emit_label("guard_"@ + n);
            lemma_well_typed_clean(*w.guard, g1);
            let g2 = lower(*w.guard, g1).emit("if (!last_bool) goto *endwhile_ptr_"@ + n + ";"@);
            lemma_well_typed_clean(*w.block, g2);
        },
        ASTNode::IfStmt(i) => {
            assert(lower(node, g) == crate::compiler::lowering::lower_if(i, g));
            let n = crate::compiler::lowering::num(g.label);
            let g1 = g.bump().emit("void* thenptr_"@ + n + " = &&then_"@ + n + ";"@).emit(
                "void* endifptr_"@ + n + " = &&endif_"@ + n + ";"@,
            );
            lemma_well_typed_clean(*i.guard, g1);
            let g2 = lower(*i.guard, g1).emit("if (last_bool) goto *thenptr_"@ + n + ";"@);
            let g3 = match i.else_stmt {
                Some(e) => {
                    lemma_well_typed_clean(*e, g2);
                    lower(*e, g2)
                },
                None => g2,
            };
            let g4 = g3.emit("goto *endifptr_"@ + n + ";"@).emit_label("then_"@ + n);
            lemma_well_typed_clean(*i.then_stmt, g4);
        },
        ASTNode::ElseStmt(e) => {
            lemma_well_typed_clean(*e.block, g);
        },
        ASTNode::PrintStmt(p) => {
            assert(lower(node, g) == crate::compiler::lowering::lower_print(p, g));
            lemma_well_typed_clean(*p.to_print, g);
        },
        ASTNode::ReadStmt(r) => {
            assert(lower(node, g) == crate::compiler::lowering::lower_read(r, g));
            match *r.variable_to_read_in {
                ASTNode::ArrayRef(a) => {
                    assert(r.variable_to_read_in.well_typed());
                    lemma_well_typed_clean(*a.index, g);
                },
                ASTNode::VarName(v) => {
                    assert(r.variable_to_read_in.well_typed());
                },
                _ => {},
            }
        },
        ASTNode::AssertStmt(a) => {
            assert(lower(node, g) == crate::compiler::lowering::lower_assert(a, g));
            lemma_well_typed_clean(*a.expr, g);
        },
        ASTNode::FunctionCallStmt(f) => {
            assert(lower(node, g) == crate::compiler::lowering::lower_function_call(f, g));
            lemma_args_clean(f.args@, 0, f.target@, g.bump());
        },
        ASTNode::ProcedureCallStmt(p) => {
            assert(lower(node, g) == crate::compiler::lowering::lower_procedure_call(p, g));
            lemma_args_clean(p.args@, 0, p.target@, g.bump());
        },
        ASTNode::ReturnStmt(r) => {
            assert(lower(node, g) == crate::compiler::lowering::lower_return(r, g));
            match r.value {
                Some(v) => {
                    lemma_well_typed_clean(*v, g);
                },
                None => {},
            }
        },
        ASTNode::EofStmt(_) => {
        },
    }
}

proof fn lemma_function_clean(f: FunctionDeclNode, g: Gen)
    requires
        f.block.well_typed(),
    ensures
        same_errors(lower_function(f, g), g),
    decreases f, 0nat,
{
    lemma_params_clean(f.args.symbols@, 0, f.name@, g.enter(f.name@));
    let g1 = lower_params(f.args.symbols@, 0, f.name@, g.enter(f.name@));
    let g2 = entry(
        f.name@,
        g1.emit(f.r_type.c_type() + " "@ + crate::compiler::lowering::ret_value(f.name@) + ";"@),
    );
    lemma_well_typed_clean(*f.block, g2);
}

proof fn lemma_procedure_clean(p: ProcedureDeclNode, g: Gen)
    requires
        p.block.well_typed(),
    ensures
        same_errors(lower_procedure(p, g), g),
    decreases p, 0nat,
{
    lemma_params_clean(p.args.symbols@, 0, p.name@, g.enter(p.name@));
    let g1 = lower_params(p.args.symbols@, 0, p.name@, g.enter(p.name@));
    lemma_well_typed_clean(*p.block, entry(p.name@, g1));
}

proof fn lemma_statements_clean(stmts: Seq<ASTNode>, i: int, g: Gen)
    requires
        forall|j: int| 0 <= j < stmts.len() ==> (#[trigger] stmts[j]).well_typed(),
    ensures
        same_errors(lower_statements(stmts, i, g), g),
    decreases stmts, stmts.len() - i,
{
    if 0 <= i < stmts.len() {
        lemma_well_typed_clean(stmts[i], g);
        lemma_statements_clean(stmts, i + 1, lower(stmts[i], g));
    }
}

proof fn lemma_functions_clean(fs: Seq<FunctionDeclNode>, i: int, g: Gen)
    requires
        forall|j: int| 0 <= j < fs.len() ==> (#[trigger] fs[j]).block.well_typed(),
    ensures
        same_errors(lower_functions(fs, i, g), g),
    decreases fs, fs.len() - i,
{
    if 0 <= i < fs.len() {
        lemma_function_clean(fs[i], g);
        lemma_functions_clean(fs, i + 1, lower_function(fs[i], g));
    }
}

proof fn lemma_procedures_clean(ps: Seq<ProcedureDeclNode>, i: int, g: Gen)
    requires
        forall|j: int| 0 <= j < ps.len() ==> (#[trigger] ps[j]).block.well_typed(),
    ensures
        same_errors(lower_procedures(ps, i, g), g),
    decreases ps, ps.len() - i,
{
    if 0 <= i < ps.len() {
        lemma_procedure_clean(ps[i], g);
        lemma_procedures_clean(ps, i + 1, lower_procedure(ps[i], g));
    }
}

proof fn lemma_args_clean(args: Seq<CallArg>, i: int, target: Seq<char>, g: Gen)
    requires
        forall|j: int| 0 <= j < args.len() ==> (#[trigger] args[j]).value.well_typed(),
    ensures
        same_errors(lower_args(args, i, target, g), g),
    decreases args, args.len() - i,
{
    if 0 <= i < args.len() {
        lemma_well_typed_clean(args[i].value, g);
        let g1 = lower(args[i].value, g);
        lemma_args_clean(
            args,
            i + 1,
            target,
            g1.emit(
                crate::compiler::lowering::storage(target, args[i].name@) + " = "@
                    + crate::compiler::lowering::last(args[i].value.spec_r_type()) + ";"@,
            ),
        );
    }
}

/// A binary expression whose operand types are no legal combination
/// for its operator, or whose type is not the one that the table of
/// legal combinations gives, is an error of the code generator,
/// whatever its operands are.
pub proof fn lemma_illegal_operands_fail(e: BinaryExprNode, g: Gen)
    requires
        e.op_type.result(e.left.spec_r_type(), e.right.spec_r_type()) != Some(e.r_type),
    ensures
        !lower_binary(e, g).sane,
        lower_binary(e, g).errors.len() >= 1,
{
}

/// A call of a function with one argument, an integer literal: a label
/// is taken; the value is stored in the variable that passes integers
/// and copied from there to the variable of the parameter; the label to
/// return to is stored, the callee is jumped to, and the label to return
/// to follows; then the result is copied from the variable of the
/// callee's result to the variable that passes values of its type.
/// Nothing else is emitted, and no error is added. The label counter
/// goes up by one, unless it stands at the largest number already.
pub proof fn lemma_call_with_a_literal(f: FunctionCallNode, value: i64, g: Gen)
    requires
        f.args@.len() == 1,
        f.args@[0].value matches ASTNode::Literal(l) && l.r_type == integer() && l.value
            == Object::Int(value),
    ensures
        lower_function_call(f, g) == g.bump().emit(
            "last_int = "@ + signed_decimal(value as int) + ";"@,
        ).emit(storage(f.target@, f.args@[0].name@) + " = last_int;"@).emit(
            ret_ptr(f.target@) + " = &&ret_"@ + num(g.label) + ";"@,
        ).emit("goto f_"@ + f.target@ + ";"@).emit_label("ret_"@ + num(g.label)).emit(
            last(f.r_type) + " = "@ + ret_value(f.target@) + ";"@,
        ),
        lower_function_call(f, g).code.len() == g.code.len() + 6,
        lower_function_call(f, g).errors == g.errors,
        lower_function_call(f, g).sane == g.sane,
        lower_function_call(f, g).scope == g.scope,
        lower_function_call(f, g).label == next_label(g.label),
        g.label < usize::MAX ==> lower_function_call(f, g).label == g.label + 1,
{
    let arg = f.args@[0];
    let g0 = g.bump();
    assert(lower(arg.value, g0) == lower_literal(arg.value->Literal_0, g0));
    assert(last(integer()) == "last_int"@) by {
        assert(last(integer()) =~= "last_"@ + "int"@);
        reveal_strlit("last_");
        reveal_strlit("int");
        reveal_strlit("last_int");
        assert("last_"@ + "int"@ =~= "last_int"@);
    }
    let g1 = lower(arg.value, g0);
    assert("last_int"@ + " = "@ =~= "last_int = "@) by {
        reveal_strlit("last_int");
        reveal_strlit(" = ");
        reveal_strlit("last_int = ");
    }
    assert(arg.value->Literal_0.value.c_lit() == signed_decimal(value as int));
    assert(g1 == g0.emit("last_int = "@ + signed_decimal(value as int) + ";"@));
    let line = storage(f.target@, arg.name@) + " = "@ + last(arg.value.spec_r_type()) + ";"@;
    assert(line =~= storage(f.target@, arg.name@) + " = last_int;"@) by {
        reveal_strlit(" = ");
        reveal_strlit(";");
        reveal_strlit("last_int");
        reveal_strlit(" = last_int;");
        assert(" = "@ + "last_int"@ + ";"@ =~= " = last_int;"@);
    }
    assert(lower_args(f.args@, 1, f.target@, g1.emit(line)) == g1.emit(line));
    assert(lower_args(f.args@, 0, f.target@, g0) == g1.emit(line));
}

} // verus!
