//! The content of a syntax tree as plain values: what two trees must
//! share to be the same tree.

use crate::base::ast::{
    void, ASTNode, BinaryExprType, CallArg, FunctionDeclNode, ProcedureDeclNode,
};
use crate::base::objects::Object;
use crate::base::symbol_table::{Declared, SymbolType};
use crate::base::token::TokenView;
use crate::base::types::Type;
use crate::scanner::position::Position;
use vstd::prelude::*;

verus! {

/// The value of a literal.
pub ghost enum Constant {
    Int(i64),
    Real(Seq<char>),
    Text(Seq<char>),
    Bool(bool),
    Array(Seq<Constant>),
}

/// An argument of a call: the name of the parameter that takes it, and
/// its value.
pub ghost struct Argument {
    pub name: Seq<char>,
    pub value: Tree,
}

/// A syntax tree.
pub ghost enum Tree {
    Program {
        program_name: TokenView,
        functions: Seq<Tree>,
        procedures: Seq<Tree>,
        main_block: Box<Tree>,
    },
    ProgramName { id: TokenView },
    FunctionDecl {
        name: Seq<char>,
        position: Position,
        params: Seq<Declared>,
        block: Box<Tree>,
        r_type: Type,
    },
    ProcedureDecl { name: Seq<char>, position: Position, params: Seq<Declared>, block: Box<Tree> },
    Block { position: Position, context: Seq<Declared>, statements: Seq<Tree> },
    Binary {
        position: Position,
        left: Box<Tree>,
        op: TokenView,
        op_type: BinaryExprType,
        right: Box<Tree>,
        r_type: Type,
    },
    VarName { position: Position, id: TokenView, r_type: Type, s_type: SymbolType },
    ArrayRef { position: Position, array: TokenView, index: Box<Tree>, r_type: Type },
    Literal { position: Position, constant: Constant, r_type: Type },
    Unary { position: Position, operand: TokenView, expression: Box<Tree>, r_type: Type },
    VarReassignment { position: Position, place: Box<Tree>, new_value: Box<Tree> },
    VariableDecl { position: Position, id: TokenView, var_type: Type, value: Option<Box<Tree>> },
    Initial { position: Position, child: Box<Tree>, r_type: Type },
    While { position: Position, guard: Box<Tree>, block: Box<Tree> },
    If { position: Position, guard: Box<Tree>, then_stmt: Box<Tree>, else_stmt: Option<Box<Tree>> },
    Else { position: Position, block: Box<Tree> },
    Print { position: Position, to_print: Box<Tree> },
    Read { position: Position, place: Box<Tree> },
    Assert { position: Position, expr: Box<Tree> },
    FunctionCall { position: Position, args: Seq<Argument>, target: Seq<char>, r_type: Type },
    ProcedureCall { position: Position, args: Seq<Argument>, target: Seq<char> },
    Return { token: TokenView, value: Option<Box<Tree>> },
    Eof { eof: TokenView },
}

impl Tree {
    /// What the root of the tree is called in messages.
    pub open spec fn text(self) -> Seq<char> {
        match self {
            Tree::Program { .. } => "program"@,
            Tree::Binary { .. } => "binary expression"@,
            Tree::VarName { .. } => "identifier"@,
            Tree::Literal { .. } => "literal"@,
            Tree::Unary { .. } => "unary expression"@,
            Tree::VarReassignment { .. } => "var reassignment"@,
            Tree::VariableDecl { .. } => "variable declaraion"@,
            Tree::Initial { .. } => "expression"@,
            Tree::Print { .. } => "print"@,
            Tree::Read { .. } => "read"@,
            Tree::Assert { .. } => "assert"@,
            Tree::Eof { .. } => "end of file"@,
            Tree::FunctionDecl { .. } => "function"@,
            Tree::ProcedureDecl { .. } => "procedure"@,
            Tree::Block { .. } => "block"@,
            Tree::ProgramName { .. } => "program name"@,
            Tree::FunctionCall { .. } => "function call"@,
            Tree::ProcedureCall { .. } => "procedure call"@,
            Tree::Return { .. } => "return statement"@,
            Tree::While { .. } => "while loop"@,
            Tree::ArrayRef { .. } => "array reference"@,
            Tree::If { .. } => "If statement"@,
            Tree::Else { .. } => "else statement"@,
        }
    }

    /// The static type of the tree: that of an expression, `Void` for
    /// a statement; a `return` has the type of its value.
    pub open spec fn r_type(self) -> Type
        decreases self,
    {
        match self {
            Tree::Binary { r_type, .. } => r_type,
            Tree::VarName { r_type, .. } => r_type,
            Tree::Literal { r_type, .. } => r_type,
            Tree::Unary { r_type, .. } => r_type,
            Tree::FunctionCall { r_type, .. } => r_type,
            Tree::ArrayRef { r_type, .. } => r_type,
            Tree::Return { value, .. } => match value {
                Some(v) => v.r_type(),
                None => void(),
            },
            _ => void(),
        }
    }

    /// Where the root of the tree stands in the source.
    pub open spec fn position(self) -> Position {
        match self {
            Tree::Program { program_name, .. } => program_name.position,
            Tree::ProgramName { id } => id.position,
            Tree::FunctionDecl { position, .. } => position,
            Tree::ProcedureDecl { position, .. } => position,
            Tree::Block { position, .. } => position,
            Tree::Binary { position, .. } => position,
            Tree::VarName { position, .. } => position,
            Tree::ArrayRef { position, .. } => position,
            Tree::Literal { position, .. } => position,
            Tree::Unary { position, .. } => position,
            Tree::VarReassignment { position, .. } => position,
            Tree::VariableDecl { position, .. } => position,
            Tree::Initial { position, .. } => position,
            Tree::While { position, .. } => position,
            Tree::If { position, .. } => position,
            Tree::Else { position, .. } => position,
            Tree::Print { position, .. } => position,
            Tree::Read { position, .. } => position,
            Tree::Assert { position, .. } => position,
            Tree::FunctionCall { position, .. } => position,
            Tree::ProcedureCall { position, .. } => position,
            Tree::Return { token, .. } => token.position,
            Tree::Eof { eof } => eof.position,
        }
    }
}

impl Object {
    /// The value as plain values.
    pub open spec fn constant(self) -> Constant
        decreases self,
    {
        match self {
            Object::Int(i) => Constant::Int(i),
            Object::Real(r) => Constant::Real(r@),
            Object::String(s) => Constant::Text(s@),
            Object::Bool(b) => Constant::Bool(b),
            Object::Array(a) => Constant::Array(constants(a@)),
        }
    }
}

/// The values of a list of literals.
pub open spec fn constants(items: Seq<Object>) -> Seq<Constant>
    decreases items,
{
    Seq::new(
        items.len(),
        |i: int|
            if 0 <= i < items.len() {
                items[i].constant()
            } else {
                arbitrary()
            },
    )
}

/// The trees of a list of nodes.
pub open spec fn trees(nodes: Seq<ASTNode>) -> Seq<Tree>
    decreases nodes,
{
    Seq::new(
        nodes.len(),
        |i: int|
            if 0 <= i < nodes.len() {
                nodes[i].tree()
            } else {
                arbitrary()
            },
    )
}

/// The trees of the arguments of a call.
pub open spec fn arguments(args: Seq<CallArg>) -> Seq<Argument>
    decreases args,
{
    Seq::new(
        args.len(),
        |i: int|
            if 0 <= i < args.len() {
                Argument { name: args[i].name@, value: args[i].value.tree() }
            } else {
                arbitrary()
            },
    )
}

/// The trees of a list of functions.
pub open spec fn function_trees(nodes: Seq<FunctionDeclNode>) -> Seq<Tree>
    decreases nodes,
{
    Seq::new(
        nodes.len(),
        |i: int|
            if 0 <= i < nodes.len() {
                Tree::FunctionDecl {
                    name: nodes[i].name@,
                    position: nodes[i].position,
                    params: nodes[i].args.declarations(),
                    block: Box::new(nodes[i].block.tree()),
                    r_type: nodes[i].r_type,
                }
            } else {
                arbitrary()
            },
    )
}

/// The trees of a list of procedures.
pub open spec fn procedure_trees(nodes: Seq<ProcedureDeclNode>) -> Seq<Tree>
    decreases nodes,
{
    Seq::new(
        nodes.len(),
        |i: int|
            if 0 <= i < nodes.len() {
                Tree::ProcedureDecl {
                    name: nodes[i].name@,
                    position: nodes[i].position,
                    params: nodes[i].args.declarations(),
                    block: Box::new(nodes[i].block.tree()),
                }
            } else {
                arbitrary()
            },
    )
}

impl ASTNode {
    /// The tree that the node is the root of.
    pub open spec fn tree(self) -> Tree
        decreases self,
    {
        match self {
            ASTNode::Program(p) => Tree::Program {
                program_name: p.program_name.name@,
                functions: function_trees(p.functions@),
                procedures: procedure_trees(p.procedures@),
                main_block: Box::new(
                    Tree::Block {
                        position: p.main_block.position,
                        context: p.main_block.context.declarations(),
                        statements: trees(p.main_block.statements@),
                    },
                ),
            },
            ASTNode::ProgramName(n) => Tree::ProgramName { id: n.name@ },
            ASTNode::FunctionDecl(f) => Tree::FunctionDecl {
                name: f.name@,
                position: f.position,
                params: f.args.declarations(),
                block: Box::new(f.block.tree()),
                r_type: f.r_type,
            },
            ASTNode::ProcedureDecl(p) => Tree::ProcedureDecl {
                name: p.name@,
                position: p.position,
                params: p.args.declarations(),
                block: Box::new(p.block.tree()),
            },
            ASTNode::Block(b) => Tree::Block {
                position: b.position,
                context: b.context.declarations(),
                statements: trees(b.statements@),
            },
            ASTNode::BinaryExpression(e) => Tree::Binary {
                position: e.position,
                left: Box::new(e.left.tree()),
                op: e.op@,
                op_type: e.op_type,
                right: Box::new(e.right.tree()),
                r_type: e.r_type,
            },
            ASTNode::VarName(v) => Tree::VarName {
                position: v.position,
                id: v.id@,
                r_type: v.r_type,
                s_type: v.s_type,
            },
            ASTNode::ArrayRef(a) => Tree::ArrayRef {
                position: a.position,
                array: a.array@,
                index: Box::new(a.index.tree()),
                r_type: a.r_type,
            },
            ASTNode::Literal(l) => Tree::Literal {
                position: l.position,
                constant: l.value.constant(),
                r_type: l.r_type,
            },
            ASTNode::UnaryExpression(u) => Tree::Unary {
                position: u.position,
                operand: u.operand@,
                expression: Box::new(u.expression.tree()),
                r_type: u.r_type,
            },
            ASTNode::VarReassignment(a) => Tree::VarReassignment {
                position: a.position,
                place: Box::new(a.variable_to_reassign.tree()),
                new_value: Box::new(a.new_value.tree()),
            },
            ASTNode::VariableDecl(d) => Tree::VariableDecl {
                position: d.position,
                id: d.id@,
                var_type: d.var_type,
                value: match d.value {
                    Some(e) => Some(
                        Box::new(
                            Tree::Initial {
                                position: e.position,
                                child: Box::new(e.child.tree()),
                                r_type: e.r_type,
                            },
                        ),
                    ),
                    None => None,
                },
            },
            ASTNode::WhileStmt(w) => Tree::While {
                position: w.position,
                guard: Box::new(w.guard.tree()),
                block: Box::new(w.block.tree()),
            },
            ASTNode::IfStmt(i) => Tree::If {
                position: i.position,
                guard: Box::new(i.guard.tree()),
                then_stmt: Box::new(i.then_stmt.tree()),
                else_stmt: match i.else_stmt {
                    Some(e) => Some(Box::new(e.tree())),
                    None => None,
                },
            },
            ASTNode::ElseStmt(e) => Tree::Else {
                position: e.position,
                block: Box::new(e.block.tree()),
            },
            ASTNode::PrintStmt(p) => Tree::Print {
                position: p.position,
                to_print: Box::new(p.to_print.tree()),
            },
            ASTNode::ReadStmt(r) => Tree::Read {
                position: r.position,
                place: Box::new(r.variable_to_read_in.tree()),
            },
            ASTNode::AssertStmt(a) => Tree::Assert {
                position: a.position,
                expr: Box::new(a.expr.tree()),
            },
            ASTNode::FunctionCallStmt(f) => Tree::FunctionCall {
                position: f.position,
                args: arguments(f.args@),
                target: f.target@,
                r_type: f.r_type,
            },
            ASTNode::ProcedureCallStmt(p) => Tree::ProcedureCall {
                position: p.position,
                args: arguments(p.args@),
                target: p.target@,
            },
            ASTNode::ReturnStmt(r) => Tree::Return {
                token: r.token@,
                value: match r.value {
                    Some(v) => Some(Box::new(v.tree())),
                    None => None,
                },
            },
            ASTNode::EofStmt(e) => Tree::Eof { eof: e.eof@ },
        }
    }
}

/// The tree of a node says what the node is called and where it
/// stands.
pub proof fn lemma_tree_of_node(node: ASTNode)
    ensures
        node.tree().text() == node.text(),
        node.tree().position() == node.spec_position(),
{
    match node {
        ASTNode::Program(_) => {},
        ASTNode::ProgramName(_) => {},
        ASTNode::FunctionDecl(_) => {},
        ASTNode::ProcedureDecl(_) => {},
        ASTNode::Block(_) => {},
        ASTNode::BinaryExpression(_) => {},
        ASTNode::VarName(_) => {},
        ASTNode::ArrayRef(_) => {},
        ASTNode::Literal(_) => {},
        ASTNode::UnaryExpression(_) => {},
        ASTNode::VarReassignment(_) => {},
        ASTNode::VariableDecl(_) => {},
        ASTNode::WhileStmt(_) => {},
        ASTNode::IfStmt(_) => {},
        ASTNode::ElseStmt(_) => {},
        ASTNode::PrintStmt(_) => {},
        ASTNode::ReadStmt(_) => {},
        ASTNode::AssertStmt(_) => {},
        ASTNode::FunctionCallStmt(_) => {},
        ASTNode::ProcedureCallStmt(_) => {},
        ASTNode::ReturnStmt(_) => {},
        ASTNode::EofStmt(_) => {},
    }
}

/// The tree of a node says which type the node has.
pub proof fn lemma_tree_type(node: ASTNode)
    ensures
        node.tree().r_type() == node.spec_r_type(),
    decreases node,
{
    match node {
        ASTNode::ReturnStmt(r) => {
            match r.value {
                Some(v) => {
                    lemma_tree_type(*v);
                },
                None => {},
            }
        },
        _ => {},
    }
}

} // verus!
