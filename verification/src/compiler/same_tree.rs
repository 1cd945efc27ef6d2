//! The generated code depends on the content of the syntax tree alone:
//! two nodes with the same tree give the same code.

use crate::base::ast::{
    ASTNode, ArrayRefExpr, AssertStmtNode, BinaryExprNode, CallArg, FunctionCallNode,
    FunctionDeclNode, IfStmtNode, LiteralExprNode, PrintStmtNode, ProcedureCallNode,
    ProcedureDeclNode, ProgramNode, ReadStmtNode, ReturnStmtNode, UnaryExprNode,
    VarReassignmentExprNode, VariableDeclNode, WhileStmtNode,
};
use crate::base::objects::Object;
use crate::base::symbol_table::SymbolTable;
use crate::base::tree::{
    arguments, constants, function_trees, lemma_tree_of_node, lemma_tree_type, procedure_trees,
    trees, Tree,
};
use crate::compiler::lowering::{
    entry, last, lower, lower_args, lower_array_ref, lower_assert, lower_assignment, lower_binary,
    lower_function, lower_function_call, lower_functions, lower_if, lower_literal, lower_params,
    lower_print, lower_procedure, lower_procedure_call, lower_procedures, lower_program,
    lower_read, lower_return, lower_statements, lower_unary, lower_var_decl, lower_while, num,
    prologue, ret_value, storage, Gen,
};
use vstd::prelude::*;

verus! {

/// The code for a tree, added to what the generator holds: the code
/// for a node with this tree, whichever it is.
pub open spec fn code_of(t: Tree, g: Gen) -> Gen {
    lower(choose|node: ASTNode| node.tree() == t, g)
}

/// Two values with the same content are written the same way.
pub proof fn lemma_same_constant(a: Object, b: Object)
    requires
        a.constant() == b.constant(),
    ensures
        a.c_lit() == b.c_lit(),
    decreases a, 0nat,
{
    match (a, b) {
        (Object::Array(x), Object::Array(y)) => {
            lemma_same_constants(x@, y@, 0);
        },
        _ => {},
    }
}

/// Two lists of values with the same content are written the same way.
pub proof fn lemma_same_constants(a: Seq<Object>, b: Seq<Object>, i: int)
    requires
        constants(a) == constants(b),
    ensures
        Object::c_lit_list(a, i) == Object::c_lit_list(b, i),
    decreases a, a.len() - i,
{
    assert(constants(a).len() == a.len());
    assert(constants(b).len() == b.len());
    if 0 <= i < a.len() {
        assert(constants(a)[i] == a[i].constant());
        assert(constants(b)[i] == b[i].constant());
        lemma_same_constant(a[i], b[i]);
        lemma_same_constants(a, b, i + 1);
    }
}

/// The parameters of two declarations that say the same are declared
/// the same way.
pub proof fn lemma_same_params(a: SymbolTable, b: SymbolTable, i: int, name: Seq<char>, g: Gen)
    requires
        a.declarations() == b.declarations(),
    ensures
        lower_params(a.symbols@, i, name, g) == lower_params(b.symbols@, i, name, g),
    decreases a.symbols@.len() - i,
{
    assert(a.declarations().len() == a.symbols@.len());
    assert(b.declarations().len() == b.symbols@.len());
    if 0 <= i < a.symbols@.len() {
        assert(a.declarations()[i] == a.symbols@[i].declared());
        assert(b.declarations()[i] == b.symbols@[i].declared());
        let line = a.symbols@[i].r_type.c_type() + " "@
            + storage(name, a.symbols@[i].name@) + ";"@;
        lemma_same_params(a, b, i + 1, name, g.emit(line));
    }
}

/// Two lists of statements with the same trees give the same code.
pub proof fn lemma_same_statements(a: Seq<ASTNode>, b: Seq<ASTNode>, i: int, g: Gen)
    requires
        trees(a) == trees(b),
    ensures
        lower_statements(a, i, g) == lower_statements(b, i, g),
    decreases a, a.len() - i,
{
    assert(trees(a).len() == a.len());
    assert(trees(b).len() == b.len());
    if 0 <= i < a.len() {
        assert(trees(a)[i] == a[i].tree());
        assert(trees(b)[i] == b[i].tree());
        lemma_same_tree(a[i], b[i], g);
        lemma_same_statements(a, b, i + 1, lower(a[i], g));
    }
}

/// Two lists of arguments with the same trees give the same code.
pub proof fn lemma_same_arguments(
    a: Seq<CallArg>,
    b: Seq<CallArg>,
    i: int,
    target: Seq<char>,
    g: Gen,
)
    requires
        arguments(a) == arguments(b),
    ensures
        lower_args(a, i, target, g) == lower_args(b, i, target, g),
    decreases a, a.len() - i,
{
    assert(arguments(a).len() == a.len());
    assert(arguments(b).len() == b.len());
    if 0 <= i < a.len() {
        assert(arguments(a)[i].value == a[i].value.tree());
        assert(arguments(b)[i].value == b[i].value.tree());
        assert(arguments(a)[i].name == a[i].name@);
        assert(arguments(b)[i].name == b[i].name@);
        lemma_tree_type(a[i].value);
        lemma_tree_type(b[i].value);
        lemma_same_tree(a[i].value, b[i].value, g);
        let g1 = lower(a[i].value, g);
        let line = storage(target, a[i].name@) + " = "@
            + last(a[i].value.spec_r_type()) + ";"@;
        lemma_same_arguments(a, b, i + 1, target, g1.emit(line));
    }
}

/// Two declarations of a function with the same tree give the same
/// code.
pub proof fn lemma_same_function(a: FunctionDeclNode, b: FunctionDeclNode, g: Gen)
    requires
        ASTNode::FunctionDecl(a).tree() == ASTNode::FunctionDecl(b).tree(),
    ensures
        lower_function(a, g) == lower_function(b, g),
    decreases a, 1nat,
{
    lemma_same_params(a.args, b.args, 0, a.name@, g.enter(a.name@));
    let g1 = lower_params(a.args.symbols@, 0, a.name@, g.enter(a.name@));
    let g2 = entry(
        a.name@,
        g1.emit(a.r_type.c_type() + " "@ + ret_value(a.name@) + ";"@),
    );
    lemma_same_tree(*a.block, *b.block, g2);
}

/// Two declarations of a procedure with the same tree give the same
/// code.
pub proof fn lemma_same_procedure(a: ProcedureDeclNode, b: ProcedureDeclNode, g: Gen)
    requires
        ASTNode::ProcedureDecl(a).tree() == ASTNode::ProcedureDecl(b).tree(),
    ensures
        lower_procedure(a, g) == lower_procedure(b, g),
    decreases a, 1nat,
{
    lemma_same_params(a.args, b.args, 0, a.name@, g.enter(a.name@));
    let g1 = lower_params(a.args.symbols@, 0, a.name@, g.enter(a.name@));
    lemma_same_tree(*a.block, *b.block, entry(a.name@, g1));
}

/// Two lists of functions with the same trees give the same code.
pub proof fn lemma_same_functions(
    a: Seq<FunctionDeclNode>,
    b: Seq<FunctionDeclNode>,
    i: int,
    g: Gen,
)
    requires
        function_trees(a) == function_trees(b),
    ensures
        lower_functions(a, i, g) == lower_functions(b, i, g),
    decreases a, a.len() - i,
{
    assert(function_trees(a).len() == a.len());
    assert(function_trees(b).len() == b.len());
    if 0 <= i < a.len() {
        assert(function_trees(a)[i] == ASTNode::FunctionDecl(a[i]).tree());
        assert(function_trees(b)[i] == ASTNode::FunctionDecl(b[i]).tree());
        lemma_same_function(a[i], b[i], g);
        lemma_same_functions(a, b, i + 1, lower_function(a[i], g));
    }
}

/// Two lists of procedures with the same trees give the same code.
pub proof fn lemma_same_procedures(
    a: Seq<ProcedureDeclNode>,
    b: Seq<ProcedureDeclNode>,
    i: int,
    g: Gen,
)
    requires
        procedure_trees(a) == procedure_trees(b),
    ensures
        lower_procedures(a, i, g) == lower_procedures(b, i, g),
    decreases a, a.len() - i,
{
    assert(procedure_trees(a).len() == a.len());
    assert(procedure_trees(b).len() == b.len());
    if 0 <= i < a.len() {
        assert(procedure_trees(a)[i] == ASTNode::ProcedureDecl(a[i]).tree());
        assert(procedure_trees(b)[i] == ASTNode::ProcedureDecl(b[i]).tree());
        lemma_same_procedure(a[i], b[i], g);
        lemma_same_procedures(a, b, i + 1, lower_procedure(a[i], g));
    }
}

/// Two programs with the same tree give the same code.
proof fn lemma_same_program(x: ProgramNode, y: ProgramNode, g: Gen)
    requires
        ASTNode::Program(x).tree() == ASTNode::Program(y).tree(),
    ensures
        lower_program(x, g) == lower_program(y, g),
    decreases x, 1nat,
{
    let g0 = prologue(g);
    lemma_same_functions(x.functions@, y.functions@, 0, g0);
    let g1 = lower_functions(x.functions@, 0, g0);
    lemma_same_procedures(x.procedures@, y.procedures@, 0, g1);
    let g2 = lower_procedures(x.procedures@, 0, g1).enter("main"@).emit_label("main_block"@);
    lemma_same_statements(x.main_block.statements@, y.main_block.statements@, 0, g2);
}

/// Two binary expressions with the same tree give the same code.
proof fn lemma_same_binary(x: BinaryExprNode, y: BinaryExprNode, g: Gen)
    requires
        ASTNode::BinaryExpression(x).tree() == ASTNode::BinaryExpression(y).tree(),
    ensures
        lower_binary(x, g) == lower_binary(y, g),
    decreases x, 1nat,
{
    lemma_tree_type(*x.left);
    lemma_tree_type(*y.left);
    lemma_tree_type(*x.right);
    lemma_tree_type(*y.right);
    let n = g.label;
    let l = x.left.spec_r_type();
    let r = x.right.spec_r_type();
    let g1 = g.bump().emit(l.c_type() + " left_arm_"@ + num(n) + ";"@).emit(
        r.c_type() + " right_arm_"@ + num(n) + ";"@,
    );
    lemma_same_tree(*x.left, *y.left, g1);
    let g2 = lower(*x.left, g1).emit("left_arm_"@ + num(n) + " = "@ + last(l) + ";"@);
    lemma_same_tree(*x.right, *y.right, g2);
}

/// Two references to an element of an array with the same tree give the same code.
proof fn lemma_same_array_ref(x: ArrayRefExpr, y: ArrayRefExpr, g: Gen)
    requires
        ASTNode::ArrayRef(x).tree() == ASTNode::ArrayRef(y).tree(),
    ensures
        lower_array_ref(x, g) == lower_array_ref(y, g),
    decreases x, 1nat,
{
    lemma_same_tree(*x.index, *y.index, g);
}

/// Two literals with the same tree give the same code.
proof fn lemma_same_literal(x: LiteralExprNode, y: LiteralExprNode, g: Gen)
    requires
        ASTNode::Literal(x).tree() == ASTNode::Literal(y).tree(),
    ensures
        lower_literal(x, g) == lower_literal(y, g),
    decreases x, 1nat,
{
    lemma_same_constant(x.value, y.value);
}

/// Two negations with the same tree give the same code.
proof fn lemma_same_unary(x: UnaryExprNode, y: UnaryExprNode, g: Gen)
    requires
        ASTNode::UnaryExpression(x).tree() == ASTNode::UnaryExpression(y).tree(),
    ensures
        lower_unary(x, g) == lower_unary(y, g),
    decreases x, 1nat,
{
    lemma_same_tree(*x.expression, *y.expression, g);
}

/// Two assignments with the same tree give the same code.
proof fn lemma_same_assignment(x: VarReassignmentExprNode, y: VarReassignmentExprNode, g: Gen)
    requires
        ASTNode::VarReassignment(x).tree() == ASTNode::VarReassignment(y).tree(),
    ensures
        lower_assignment(x, g) == lower_assignment(y, g),
    decreases x, 1nat,
{
    lemma_tree_type(*x.new_value);
    lemma_tree_type(*y.new_value);
    lemma_tree_of_node(*x.variable_to_reassign);
    lemma_tree_of_node(*y.variable_to_reassign);
    assert(x.variable_to_reassign.tree() == y.variable_to_reassign.tree());
    match (*x.variable_to_reassign, *y.variable_to_reassign) {
        (ASTNode::VarName(v), ASTNode::VarName(w)) => {
            lemma_same_tree(*x.new_value, *y.new_value, g);
        },
        (ASTNode::ArrayRef(v), ASTNode::ArrayRef(w)) => {
            lemma_same_tree(*v.index, *w.index, g.bump());
            let g1 = lower(*v.index, g.bump()).emit("int tmp_"@ + num(g.label) + " = last_int;"@);
            lemma_same_tree(*x.new_value, *y.new_value, g1);
        },
        _ => {},
    }
}

/// Two declarations of a variable with the same tree give the same code.
proof fn lemma_same_var_decl(x: VariableDeclNode, y: VariableDeclNode, g: Gen)
    requires
        ASTNode::VariableDecl(x).tree() == ASTNode::VariableDecl(y).tree(),
    ensures
        lower_var_decl(x, g) == lower_var_decl(y, g),
    decreases x, 1nat,
{
    let g1 = g.emit(x.var_type.c_type() + " "@ + storage(g.scope, x.id.lexeme@) + ";"@);
    match (x.value, y.value) {
        (Some(e), Some(f)) => {
            lemma_tree_type(*e.child);
            lemma_tree_type(*f.child);
            lemma_same_tree(*e.child, *f.child, g1);
        },
        _ => {},
    }
}

/// Two while loops with the same tree give the same code.
proof fn lemma_same_while(x: WhileStmtNode, y: WhileStmtNode, g: Gen)
    requires
        ASTNode::WhileStmt(x).tree() == ASTNode::WhileStmt(y).tree(),
    ensures
        lower_while(x, g) == lower_while(y, g),
    decreases x, 1nat,
{
    let n = num(g.label);
    let g1 = g.bump().emit("void* endwhile_ptr_"@ + n + " = &&endwhile_"@ + n + ";"@).emit(
        "void* guard_ptr_"@ + n + " = &&guard_"@ + n + ";"@,
    ).emit_label("guard_"@ + n);
    lemma_same_tree(*x.guard, *y.guard, g1);
    let g2 = lower(*x.guard, g1).emit("if (!last_bool) goto *endwhile_ptr_"@ + n + ";"@);
    lemma_same_tree(*x.block, *y.block, g2);
}

/// Two if statements with the same tree give the same code.
proof fn lemma_same_if(x: IfStmtNode, y: IfStmtNode, g: Gen)
    requires
        ASTNode::IfStmt(x).tree() == ASTNode::IfStmt(y).tree(),
    ensures
        lower_if(x, g) == lower_if(y, g),
    decreases x, 1nat,
{
    let n = num(g.label);
    let g1 = g.bump().emit("void* thenptr_"@ + n + " = &&then_"@ + n + ";"@).emit(
        "void* endifptr_"@ + n + " = &&endif_"@ + n + ";"@,
    );
    lemma_same_tree(*x.guard, *y.guard, g1);
    let g2 = lower(*x.guard, g1).emit("if (last_bool) goto *thenptr_"@ + n + ";"@);
    let g3 = match x.else_stmt {
        Some(e) => lower(*e, g2),
        None => g2,
    };
    match (x.else_stmt, y.else_stmt) {
        (Some(e), Some(f)) => {
            lemma_same_tree(*e, *f, g2);
        },
        _ => {},
    }
    let g4 = g3.emit("goto *endifptr_"@ + n + ";"@).emit_label("then_"@ + n);
    lemma_same_tree(*x.then_stmt, *y.then_stmt, g4);
}

/// Two print statements with the same tree give the same code.
proof fn lemma_same_print(x: PrintStmtNode, y: PrintStmtNode, g: Gen)
    requires
        ASTNode::PrintStmt(x).tree() == ASTNode::PrintStmt(y).tree(),
    ensures
        lower_print(x, g) == lower_print(y, g),
    decreases x, 1nat,
{
    lemma_tree_type(*x.to_print);
    lemma_tree_type(*y.to_print);
    lemma_tree_of_node(*x.to_print);
    lemma_tree_of_node(*y.to_print);
    lemma_same_tree(*x.to_print, *y.to_print, g);
}

/// Two read statements with the same tree give the same code.
proof fn lemma_same_read(x: ReadStmtNode, y: ReadStmtNode, g: Gen)
    requires
        ASTNode::ReadStmt(x).tree() == ASTNode::ReadStmt(y).tree(),
    ensures
        lower_read(x, g) == lower_read(y, g),
    decreases x, 1nat,
{
    assert(x.variable_to_read_in.tree() == y.variable_to_read_in.tree());
    match (*x.variable_to_read_in, *y.variable_to_read_in) {
        (ASTNode::ArrayRef(v), ASTNode::ArrayRef(w)) => {
            lemma_same_tree(*v.index, *w.index, g);
        },
        _ => {},
    }
}

/// Two assert statements with the same tree give the same code.
proof fn lemma_same_assert(x: AssertStmtNode, y: AssertStmtNode, g: Gen)
    requires
        ASTNode::AssertStmt(x).tree() == ASTNode::AssertStmt(y).tree(),
    ensures
        lower_assert(x, g) == lower_assert(y, g),
    decreases x, 1nat,
{
    lemma_same_tree(*x.expr, *y.expr, g);
}

/// Two calls of a function with the same tree give the same code.
proof fn lemma_same_function_call(x: FunctionCallNode, y: FunctionCallNode, g: Gen)
    requires
        ASTNode::FunctionCallStmt(x).tree() == ASTNode::FunctionCallStmt(y).tree(),
    ensures
        lower_function_call(x, g) == lower_function_call(y, g),
    decreases x, 1nat,
{
    lemma_same_arguments(x.args@, y.args@, 0, x.target@, g.bump());
}

/// Two calls of a procedure with the same tree give the same code.
proof fn lemma_same_procedure_call(x: ProcedureCallNode, y: ProcedureCallNode, g: Gen)
    requires
        ASTNode::ProcedureCallStmt(x).tree() == ASTNode::ProcedureCallStmt(y).tree(),
    ensures
        lower_procedure_call(x, g) == lower_procedure_call(y, g),
    decreases x, 1nat,
{
    lemma_same_arguments(x.args@, y.args@, 0, x.target@, g.bump());
}

/// Two return statements with the same tree give the same code.
proof fn lemma_same_return(x: ReturnStmtNode, y: ReturnStmtNode, g: Gen)
    requires
        ASTNode::ReturnStmt(x).tree() == ASTNode::ReturnStmt(y).tree(),
    ensures
        lower_return(x, g) == lower_return(y, g),
    decreases x, 1nat,
{
    match (x.value, y.value) {
        (Some(v), Some(w)) => {
            lemma_tree_type(*v);
            lemma_tree_type(*w);
            lemma_same_tree(*v, *w, g);
        },
        _ => {},
    }
}

/// Two nodes with the same tree give the same code, whatever the state
/// of the generator: the code depends on the content of the tree
/// alone.
pub proof fn lemma_same_tree(a: ASTNode, b: ASTNode, g: Gen)
    requires
        a.tree() == b.tree(),
    ensures
        lower(a, g) == lower(b, g),
    decreases a, 2nat,
{
    match (a, b) {
        (ASTNode::Program(x), ASTNode::Program(y)) => {
            lemma_same_program(x, y, g);
        },
        (ASTNode::BinaryExpression(x), ASTNode::BinaryExpression(y)) => {
            lemma_same_binary(x, y, g);
        },
        (ASTNode::ArrayRef(x), ASTNode::ArrayRef(y)) => {
            lemma_same_array_ref(x, y, g);
        },
        (ASTNode::Literal(x), ASTNode::Literal(y)) => {
            lemma_same_literal(x, y, g);
        },
        (ASTNode::UnaryExpression(x), ASTNode::UnaryExpression(y)) => {
            lemma_same_unary(x, y, g);
        },
        (ASTNode::VarReassignment(x), ASTNode::VarReassignment(y)) => {
            lemma_same_assignment(x, y, g);
        },
        (ASTNode::VariableDecl(x), ASTNode::VariableDecl(y)) => {
            lemma_same_var_decl(x, y, g);
        },
        (ASTNode::WhileStmt(x), ASTNode::WhileStmt(y)) => {
            lemma_same_while(x, y, g);
        },
        (ASTNode::IfStmt(x), ASTNode::IfStmt(y)) => {
            lemma_same_if(x, y, g);
        },
        (ASTNode::PrintStmt(x), ASTNode::PrintStmt(y)) => {
            lemma_same_print(x, y, g);
        },
        (ASTNode::ReadStmt(x), ASTNode::ReadStmt(y)) => {
            lemma_same_read(x, y, g);
        },
        (ASTNode::AssertStmt(x), ASTNode::AssertStmt(y)) => {
            lemma_same_assert(x, y, g);
        },
        (ASTNode::FunctionCallStmt(x), ASTNode::FunctionCallStmt(y)) => {
            lemma_same_function_call(x, y, g);
        },
        (ASTNode::ProcedureCallStmt(x), ASTNode::ProcedureCallStmt(y)) => {
            lemma_same_procedure_call(x, y, g);
        },
        (ASTNode::ReturnStmt(x), ASTNode::ReturnStmt(y)) => {
            lemma_same_return(x, y, g);
        },
        (ASTNode::FunctionDecl(x), ASTNode::FunctionDecl(y)) => {
            lemma_same_function(x, y, g);
        },
        (ASTNode::ProcedureDecl(x), ASTNode::ProcedureDecl(y)) => {
            lemma_same_procedure(x, y, g);
        },
        (ASTNode::Block(x), ASTNode::Block(y)) => {
            lemma_same_statements(x.statements@, y.statements@, 0, g);
        },
        (ASTNode::ElseStmt(x), ASTNode::ElseStmt(y)) => {
            lemma_same_tree(*x.block, *y.block, g);
        },
        _ => {},
    }
}

/// The code for a node is the code for its tree.
pub proof fn lemma_code_of(node: ASTNode, g: Gen)
    ensures
        lower(node, g) == code_of(node.tree(), g),
{
    let chosen = choose|n: ASTNode| n.tree() == node.tree();
    assert(chosen.tree() == node.tree());
    lemma_same_tree(chosen, node, g);
}

} // verus!
