//! What the code generator emits, stated over the syntax tree.
//!
//! The generated code passes values through one variable for each type,
//! `last_int`, `last_str` and so on: an expression leaves its value
//! there, and what uses the value reads it from there at once. Control
//! goes by labels and jumps; a call stores the label to come back to in
//! a variable of the callee and jumps to the callee's label.

use crate::base::ast::{
    ASTNode, ArrayRefExpr, AssertStmtNode, BinaryExprNode, BinaryExprType, CallArg,
    FunctionCallNode, FunctionDeclNode, IfStmtNode, LiteralExprNode, PrintStmtNode,
    ProcedureCallNode, ProcedureDeclNode, ProgramNameNode, ProgramNode, ReadStmtNode,
    ReturnStmtNode, UnaryExprNode, VarReassignmentExprNode, VariableDeclNode,
    VariableNameExpressionNode, WhileStmtNode,
};
use crate::base::errors::CompilationErrorView;
use crate::base::symbol_table::Symbol;
use crate::base::types::{SimpleType, Type};
use crate::scanner::position::Position;
use crate::text::{decimal, lowered};
use vstd::prelude::*;

verus! {

/// The state of a code generator: the pieces of code emitted so far,
/// the errors found so far and whether there is none, the name of the
/// function whose body is being generated, and the number of the next
/// label.
pub ghost struct Gen {
    pub code: Seq<Seq<char>>,
    pub errors: Seq<CompilationErrorView>,
    pub sane: bool,
    pub scope: Seq<char>,
    pub label: int,
}

/// The number of the label after `label`; the largest number stays.
pub open spec fn next_label(label: int) -> int {
    if label < usize::MAX {
        label + 1
    } else {
        label
    }
}

/// The name of a type in the names of the variables that pass values.
pub open spec fn slot(t: Type) -> Seq<char> {
    match t {
        Type::Simple(a) => match a {
            SimpleType::String => "str"@,
            _ => a.c_type(),
        },
        Type::Array(a) => match a {
            SimpleType::String => "str_arr"@,
            _ => a.c_type() + "_arr"@,
        },
    }
}

/// The variable that passes values of the type `t`.
pub open spec fn last(t: Type) -> Seq<char> {
    "last_"@ + slot(t)
}

/// The variable that holds the value that the function `name` returns.
pub open spec fn ret_value(name: Seq<char>) -> Seq<char> {
    name + "_return_value"@
}

/// The variable that holds the label to which the function or
/// procedure `name` returns.
pub open spec fn ret_ptr(name: Seq<char>) -> Seq<char> {
    name + "_return_ptr"@
}

/// The variable that stores the name `name` of the scope `scope`.
pub open spec fn storage(scope: Seq<char>, name: Seq<char>) -> Seq<char> {
    scope + "_"@ + lowered(name)
}

/// The number of a label as it is written.
pub open spec fn num(label: int) -> Seq<char> {
    decimal(label as nat)
}

/// The type of the elements in the declaration of an array literal.
pub open spec fn element_c_type(t: SimpleType) -> Seq<char> {
    match t {
        SimpleType::Int => "int"@,
        SimpleType::String => "char*"@,
        SimpleType::Bool => "bool"@,
        SimpleType::Real => "float"@,
        SimpleType::Void => "void"@,
    }
}

/// The conversion that reads and writes a value of a base type.
pub open spec fn format_of(t: SimpleType) -> Seq<char> {
    match t {
        SimpleType::Int => "%d"@,
        SimpleType::String => "%s"@,
        SimpleType::Bool => "%d"@,
        SimpleType::Real => "%f"@,
        SimpleType::Void => "%d"@,
    }
}

/// What is written before a variable that a value is read into.
pub open spec fn address_of(t: SimpleType) -> Seq<char> {
    match t {
        SimpleType::String => ""@,
        _ => "&"@,
    }
}

/// The name of a base type in the message that is printed for an
/// array.
pub open spec fn element_name(t: SimpleType) -> Seq<char> {
    match t {
        SimpleType::Int => "int"@,
        SimpleType::Real => "reals"@,
        SimpleType::String => "string"@,
        SimpleType::Bool => "bool"@,
        SimpleType::Void => "void"@,
    }
}

/// The description of the error for a binary expression whose operand
/// types the operator does not take.
pub open spec fn operands_error(op: BinaryExprType, l: Type, r: Type) -> Seq<char> {
    if l is Array || r is Array {
        "Binary expressions between arrays are not allowed"@
    } else if l.base() == SimpleType::Void || r.base() == SimpleType::Void {
        "Binary expressions between void oprands are not allowed"@
    } else {
        "Invalid operand types for "@ + op.text() + ": "@ + l.text() + " and "@ + r.text()
    }
}

impl Gen {
    /// The state of a generator that has emitted nothing.
    pub open spec fn fresh() -> Gen {
        Gen { code: Seq::empty(), errors: Seq::empty(), sane: true, scope: "main"@, label: 0 }
    }

    /// One instruction more: a line of code.
    pub open spec fn emit(self, line: Seq<char>) -> Gen {
        Gen { code: self.code.push(line.push('\n')), ..self }
    }

    /// One label more.
    pub open spec fn emit_label(self, name: Seq<char>) -> Gen {
        self.emit(name + ":"@)
    }

    /// One error more.
    pub open spec fn fail(self, position: Position, description: Seq<char>) -> Gen {
        Gen {
            errors: self.errors.push(CompilationErrorView { position, description }),
            sane: false,
            ..self
        }
    }

    /// The next label taken.
    pub open spec fn bump(self) -> Gen {
        Gen { label: next_label(self.label), ..self }
    }

    /// Another function's body begun.
    pub open spec fn enter(self, scope: Seq<char>) -> Gen {
        Gen { scope, ..self }
    }
}

/// The code for a node, added to what the generator holds.
pub open spec fn lower(node: ASTNode, g: Gen) -> Gen
    decreases node, 0nat,
{
    match node {
        ASTNode::Program(p) => lower_program(p, g),
        ASTNode::ProgramName(n) => lower_program_name(n, g),
        ASTNode::FunctionDecl(f) => lower_function(f, g),
        ASTNode::ProcedureDecl(p) => lower_procedure(p, g),
        ASTNode::Block(b) => lower_statements(b.statements@, 0, g),
        ASTNode::BinaryExpression(e) => lower_binary(e, g),
        ASTNode::VarName(v) => lower_var_name(v, g),
        ASTNode::ArrayRef(a) => lower_array_ref(a, g),
        ASTNode::Literal(l) => lower_literal(l, g),
        ASTNode::UnaryExpression(u) => lower_unary(u, g),
        ASTNode::VarReassignment(a) => lower_assignment(a, g),
        ASTNode::VariableDecl(d) => lower_var_decl(d, g),
        ASTNode::WhileStmt(w) => lower_while(w, g),
        ASTNode::IfStmt(i) => lower_if(i, g),
        ASTNode::ElseStmt(e) => lower(*e.block, g),
        ASTNode::PrintStmt(p) => lower_print(p, g),
        ASTNode::ReadStmt(r) => lower_read(r, g),
        ASTNode::AssertStmt(a) => lower_assert(a, g),
        ASTNode::FunctionCallStmt(f) => lower_function_call(f, g),
        ASTNode::ProcedureCallStmt(p) => lower_procedure_call(p, g),
        ASTNode::ReturnStmt(r) => lower_return(r, g),
        ASTNode::EofStmt(_) => g,
    }
}

/// The code for the statements `stmts[i..]`, one after the other.
pub open spec fn lower_statements(stmts: Seq<ASTNode>, i: int, g: Gen) -> Gen
    decreases stmts, stmts.len() - i,
{
    if i < 0 || i >= stmts.len() {
        g
    } else {
        lower_statements(stmts, i + 1, lower(stmts[i], g))
    }
}

/// The code for the functions `fs[i..]`, one after the other.
pub open spec fn lower_functions(fs: Seq<FunctionDeclNode>, i: int, g: Gen) -> Gen
    decreases fs, fs.len() - i,
{
    if i < 0 || i >= fs.len() {
        g
    } else {
        lower_functions(fs, i + 1, lower_function(fs[i], g))
    }
}

/// The code for the procedures `ps[i..]`, one after the other.
pub open spec fn lower_procedures(ps: Seq<ProcedureDeclNode>, i: int, g: Gen) -> Gen
    decreases ps, ps.len() - i,
{
    if i < 0 || i >= ps.len() {
        g
    } else {
        lower_procedures(ps, i + 1, lower_procedure(ps[i], g))
    }
}

/// The declarations of the variables that pass values, and the jump to
/// the main block.
pub open spec fn prologue(g: Gen) -> Gen {
    g.emit("int last_int;"@).emit("float last_float;"@).emit("bool last_bool;"@).emit(
        "char* last_str;"@,
    ).emit("int* last_int_arr;"@).emit("float* last_float_arr;"@).emit("bool* last_bool_arr;"@).emit(
        "char** last_str_arr;"@,
    ).emit("void* main_block_ptr = &&main_block;"@).emit("goto *main_block_ptr;"@)
}

/// A program: the prologue, the functions, the procedures, and the main
/// block under its label.
pub open spec fn lower_program(p: ProgramNode, g: Gen) -> Gen
    decreases p, 0nat,
{
    let g1 = lower_procedures(p.procedures@, 0, lower_functions(p.functions@, 0, prologue(g)));
    let g2 = g1.enter("main"@).emit_label("main_block"@);
    lower_statements(p.main_block.statements@, 0, g2).emit("return 0;"@)
}

/// The name of the program, printed.
pub open spec fn lower_program_name(n: ProgramNameNode, g: Gen) -> Gen {
    g.emit("printf(\""@ + n.name.lexeme@ + "\");"@)
}

/// The declarations of the variables of the parameters `params[i..]`
/// of the function or procedure `name`.
pub open spec fn lower_params(params: Seq<Symbol>, i: int, name: Seq<char>, g: Gen) -> Gen
    decreases params.len() - i,
{
    if i < 0 || i >= params.len() {
        g
    } else {
        lower_params(
            params,
            i + 1,
            name,
            g.emit(params[i].r_type.c_type() + " "@ + storage(name, params[i].name@) + ";"@),
        )
    }
}

/// What stands before the body of a function or procedure, behind the
/// variables of its parameters and of its result: the variable for the
/// label to return to, the address of the entry, and the label of the
/// entry.
pub open spec fn entry(name: Seq<char>, g: Gen) -> Gen {
    g.emit("void* "@ + ret_ptr(name) + ";"@).emit(
        "void* fptr_"@ + name + " = &&f_"@ + name + ";"@,
    ).emit_label("f_"@ + name)
}

/// What stands behind the body of a function or procedure: the jump to
/// the label that the caller has stored.
pub open spec fn leave(name: Seq<char>, g: Gen) -> Gen {
    g.emit("goto *"@ + ret_ptr(name) + ";"@)
}

/// The declaration of a function: its body becomes the scope; the
/// variables of its parameters and of its result; its entry, its body,
/// and the jump back.
pub open spec fn lower_function(f: FunctionDeclNode, g: Gen) -> Gen
    decreases f, 0nat,
{
    let g1 = lower_params(f.args.symbols@, 0, f.name@, g.enter(f.name@));
    let g2 = entry(f.name@, g1.emit(f.r_type.c_type() + " "@ + ret_value(f.name@) + ";"@));
    leave(f.name@, lower(*f.block, g2))
}

/// The declaration of a procedure: as that of a function, without a
/// variable for a result.
pub open spec fn lower_procedure(p: ProcedureDeclNode, g: Gen) -> Gen
    decreases p, 0nat,
{
    let g1 = lower_params(p.args.symbols@, 0, p.name@, g.enter(p.name@));
    leave(p.name@, lower(*p.block, entry(p.name@, g1)))
}

/// The arguments `args[i..]` of a call of `target`: each is evaluated,
/// and its value copied to the variable of its parameter.
pub open spec fn lower_args(args: Seq<CallArg>, i: int, target: Seq<char>, g: Gen) -> Gen
    decreases args, args.len() - i,
{
    if i < 0 || i >= args.len() {
        g
    } else {
        let g1 = lower(args[i].value, g);
        lower_args(
            args,
            i + 1,
            target,
            g1.emit(
                storage(target, args[i].name@) + " = "@ + last(args[i].value.spec_r_type()) + ";"@,
            ),
        )
    }
}

/// The linkage of a call of `target` with the label number `n`: the
/// label to return to is stored, the callee is jumped to, and the label
/// to return to follows.
pub open spec fn linkage(target: Seq<char>, n: int, g: Gen) -> Gen {
    g.emit(ret_ptr(target) + " = &&ret_"@ + num(n) + ";"@).emit(
        "goto f_"@ + target + ";"@,
    ).emit_label("ret_"@ + num(n))
}

/// A call of a function: a label is taken; the arguments; the linkage;
/// and the result is copied to the variable that passes values of its
/// type.
pub open spec fn lower_function_call(f: FunctionCallNode, g: Gen) -> Gen
    decreases f, 0nat,
{
    let g1 = linkage(f.target@, g.label, lower_args(f.args@, 0, f.target@, g.bump()));
    g1.emit(last(f.r_type) + " = "@ + ret_value(f.target@) + ";"@)
}

/// A call of a procedure: as that of a function, without a result.
pub open spec fn lower_procedure_call(p: ProcedureCallNode, g: Gen) -> Gen
    decreases p, 0nat,
{
    linkage(p.target@, g.label, lower_args(p.args@, 0, p.target@, g.bump()))
}

/// The instruction that computes a binary expression from its two
/// arms, whose number is `n`, for the type `t` of its result.
pub open spec fn operation(op: BinaryExprType, t: Type, n: int) -> Seq<char> {
    if t == Type::Simple(SimpleType::String) {
        "last_str = strcat(left_arm_"@ + num(n) + ", right_arm_"@ + num(n) + ");"@
    } else {
        last(t) + " = left_arm_"@ + num(n) + " "@ + op.c_operator() + " right_arm_"@ + num(n)
            + ";"@
    }
}

/// A binary expression: a label is taken for the names of its two
/// arms, which are declared; the left operand is evaluated and copied
/// to its arm, then the right one; then the operation, where the table
/// of legal operand types gives the type of the node, and an error
/// where it does not.
pub open spec fn lower_binary(e: BinaryExprNode, g: Gen) -> Gen
    decreases e, 0nat,
{
    let n = g.label;
    let l = e.left.spec_r_type();
    let r = e.right.spec_r_type();
    let g1 = g.bump().emit(l.c_type() + " left_arm_"@ + num(n) + ";"@).emit(
        r.c_type() + " right_arm_"@ + num(n) + ";"@,
    );
    let g2 = lower(*e.left, g1).emit("left_arm_"@ + num(n) + " = "@ + last(l) + ";"@);
    let g3 = lower(*e.right, g2).emit("right_arm_"@ + num(n) + " = "@ + last(r) + ";"@);
    if e.op_type.result(l, r) == Some(e.r_type) {
        g3.emit(operation(e.op_type, e.r_type, n))
    } else {
        g3.fail(e.position, operands_error(e.op_type, l, r))
    }
}

/// A literal: a value of a base type is stored in the variable that
/// passes values of its type, a string by way of a buffer; an array is
/// declared under a name with a label's number, and its address stored.
/// A literal of type `Void` is an error.
pub open spec fn lower_literal(l: LiteralExprNode, g: Gen) -> Gen {
    match l.r_type {
        Type::Simple(SimpleType::Void) => g.fail(l.position, "literal of type void?"@),
        Type::Simple(SimpleType::String) => g.emit("last_str = malloc(128 * sizeof(char));"@).emit(
            "strcpy(last_str, "@ + l.value.c_lit() + ");"@,
        ),
        Type::Simple(_) => g.emit(last(l.r_type) + " = "@ + l.value.c_lit() + ";"@),
        Type::Array(SimpleType::Void) => g.fail(l.position, "Found array of void expressions"@),
        Type::Array(a) => g.bump().emit(
            element_c_type(a) + " tmp_"@ + num(g.label) + "[] = "@ + l.value.c_lit() + ";"@,
        ).emit(last(l.r_type) + " = tmp_"@ + num(g.label) + ";"@),
    }
}

/// A negation: the operand is evaluated, and its value negated where
/// it stands.
pub open spec fn lower_unary(u: UnaryExprNode, g: Gen) -> Gen
    decreases u, 0nat,
{
    lower(*u.expression, g).emit("last_bool = !last_bool;"@)
}

/// A name that is read: its variable is copied to the variable that
/// passes values of its type. The name of a function or procedure is an
/// error.
pub open spec fn lower_var_name(v: VariableNameExpressionNode, g: Gen) -> Gen {
    if v.s_type.is_storage() {
        g.emit(last(v.r_type) + " = "@ + storage(g.scope, v.id.lexeme@) + ";"@)
    } else {
        g.fail(v.position, "Expected variable name, found function name"@)
    }
}

/// An element of an array that is read: the index is evaluated, and
/// the element at it copied to the variable that passes values of its
/// type.
pub open spec fn lower_array_ref(a: ArrayRefExpr, g: Gen) -> Gen
    decreases a, 0nat,
{
    let g1 = lower(*a.index, g);
    g1.emit(
        last(Type::Simple(a.r_type.base())) + " = "@ + storage(g1.scope, a.array.lexeme@)
            + "[last_int];"@,
    )
}

/// An assignment. To a variable: the new value is evaluated and copied
/// to the variable. To an element of an array: a label is taken, the
/// index is evaluated and kept under a name with the label's number,
/// then the new value is evaluated and copied to the element. Any other
/// target, and the name of a function or procedure, is an error.
pub open spec fn lower_assignment(a: VarReassignmentExprNode, g: Gen) -> Gen
    decreases a, 0nat,
{
    match *a.variable_to_reassign {
        ASTNode::VarName(v) => if v.s_type.is_storage() {
            let g1 = lower(*a.new_value, g);
            g1.emit(
                storage(g1.scope, v.id.lexeme@) + " = "@ + last(a.new_value.spec_r_type()) + ";"@,
            )
        } else {
            g.fail(v.position, "Expected variable name, found function name"@)
        },
        ASTNode::ArrayRef(r) => {
            let g1 = lower(*r.index, g.bump()).emit("int tmp_"@ + num(g.label) + " = last_int;"@);
            let g2 = lower(*a.new_value, g1);
            g2.emit(
                storage(g2.scope, r.array.lexeme@) + "[tmp_"@ + num(g.label) + "] = "@ + last(
                    a.new_value.spec_r_type(),
                ) + ";"@,
            )
        },
        other => g.fail(other.spec_position(), "Unknown variable to reassign"@),
    }
}

/// A declaration: the variable is declared under the name of its
/// scope; an initial value is evaluated and copied to it.
pub open spec fn lower_var_decl(d: VariableDeclNode, g: Gen) -> Gen
    decreases d, 0nat,
{
    let g1 = g.emit(d.var_type.c_type() + " "@ + storage(g.scope, d.id.lexeme@) + ";"@);
    match d.value {
        Some(e) => {
            let g2 = lower(*e.child, g1);
            g2.emit(storage(g2.scope, d.id.lexeme@) + " = "@ + last(e.child.spec_r_type()) + ";"@)
        },
        None => g1,
    }
}

/// A while loop: a label is taken; the addresses of the labels of the
/// guard and of the end; the label of the guard; the guard; the jump to
/// the end where it does not hold; the body; the jump back to the guard;
/// the label of the end.
pub open spec fn lower_while(w: WhileStmtNode, g: Gen) -> Gen
    decreases w, 0nat,
{
    let n = num(g.label);
    let g1 = g.bump().emit("void* endwhile_ptr_"@ + n + " = &&endwhile_"@ + n + ";"@).emit(
        "void* guard_ptr_"@ + n + " = &&guard_"@ + n + ";"@,
    ).emit_label("guard_"@ + n);
    let g2 = lower(*w.guard, g1).emit("if (!last_bool) goto *endwhile_ptr_"@ + n + ";"@);
    lower(*w.block, g2).emit("goto *guard_ptr_"@ + n + ";"@).emit_label("endwhile_"@ + n)
}

/// An if statement: a label is taken; the addresses of the labels of
/// the first branch and of the end; the guard; the jump to the first
/// branch where it holds; the other branch, if there is one; the jump
/// to the end; the first branch under its label; the label of the end.
pub open spec fn lower_if(i: IfStmtNode, g: Gen) -> Gen
    decreases i, 0nat,
{
    let n = num(g.label);
    let g1 = g.bump().emit("void* thenptr_"@ + n + " = &&then_"@ + n + ";"@).emit(
        "void* endifptr_"@ + n + " = &&endif_"@ + n + ";"@,
    );
    let g2 = lower(*i.guard, g1).emit("if (last_bool) goto *thenptr_"@ + n + ";"@);
    let g3 = match i.else_stmt {
        Some(e) => lower(*e, g2),
        None => g2,
    };
    let g4 = g3.emit("goto *endifptr_"@ + n + ";"@).emit_label("then_"@ + n);
    lower(*i.then_stmt, g4).emit_label("endif_"@ + n)
}

/// The instruction that prints the value last computed, of the type
/// `t`: by the conversion of its base type; for an array a message
/// that names the type of its elements.
pub open spec fn print_instruction(t: Type) -> Seq<char> {
    match t {
        Type::Simple(a) => "printf(\""@ + format_of(a) + "\\n\", "@ + last(t) + ");"@,
        Type::Array(a) => "printf(\"array of "@ + element_name(a) + "\");"@,
    }
}

/// A print statement: the operand is evaluated and printed. An operand
/// of type `Void` is an error.
pub open spec fn lower_print(p: PrintStmtNode, g: Gen) -> Gen
    decreases p, 0nat,
{
    let g1 = lower(*p.to_print, g);
    if p.to_print.spec_r_type() == Type::Simple(SimpleType::Void) {
        g1.fail(p.to_print.spec_position(), "Unable to print a void expression"@)
    } else {
        g1.emit(print_instruction(p.to_print.spec_r_type()))
    }
}

/// The instruction that reads a value of the base type `t` into the
/// variable or element `place`.
pub open spec fn read_instruction(t: SimpleType, place: Seq<char>) -> Seq<char> {
    "scanf(\""@ + format_of(t) + "\", "@ + address_of(t) + place + ");"@
}

/// A read statement. Into a variable: the value is read into it. Into
/// an element of an array: the index is evaluated, and the value read
/// into the element at it. A whole array, a target of type `Void`, the
/// name of a function or procedure and any other target are errors.
pub open spec fn lower_read(r: ReadStmtNode, g: Gen) -> Gen
    decreases r, 0nat,
{
    match *r.variable_to_read_in {
        ASTNode::VarName(v) => match v.r_type {
            Type::Array(_) => g.fail(r.position, "Trying to read into whole array"@),
            Type::Simple(SimpleType::Void) => g.fail(
                r.position,
                "Trying to read into void expression"@,
            ),
            Type::Simple(t) => if v.s_type.is_storage() {
                g.emit(read_instruction(t, storage(g.scope, v.id.lexeme@)))
            } else {
                g.fail(r.position, "Expected variable name, found function name"@)
            },
        },
        ASTNode::ArrayRef(a) => {
            let g1 = lower(*a.index, g);
            match a.r_type {
                Type::Array(_) => g1.fail(r.position, "Trying to read into whole array"@),
                Type::Simple(SimpleType::Void) => g1.fail(
                    r.position,
                    "Trying to read into void expression"@,
                ),
                Type::Simple(t) => g1.emit(
                    read_instruction(t, storage(g1.scope, a.array.lexeme@) + "[last_int]"@),
                ),
            }
        },
        _ => g.fail(r.position, "Trying to read into an unknown variable"@),
    }
}

/// An assert statement: the operand is evaluated and asserted.
pub open spec fn lower_assert(a: AssertStmtNode, g: Gen) -> Gen
    decreases a, 0nat,
{
    lower(*a.expr, g).emit("assert(last_bool);"@)
}

/// A return statement: a value is evaluated and copied to the variable
/// for the result of the function whose body this is; without a value
/// it is a bare return.
pub open spec fn lower_return(r: ReturnStmtNode, g: Gen) -> Gen
    decreases r, 0nat,
{
    match r.value {
        Some(v) => {
            let g1 = lower(*v, g);
            g1.emit(ret_value(g1.scope) + " = "@ + last(v.spec_r_type()) + ";"@)
        },
        None => g.emit("return;"@),
    }
}

} // verus!
