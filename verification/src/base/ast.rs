use crate::base::objects::Object;
use crate::base::symbol_table::{SymbolTable, SymbolType};
use crate::base::token::{Kind, Token};
use crate::base::tree::{arguments, function_trees, procedure_trees, trees};
use crate::base::types::{SimpleType, Type};
use crate::scanner::position::Position;
use crate::text::copy_str;
use vstd::prelude::*;

verus! {

/// A node of the syntax tree.
#[derive(Debug)]
pub enum ASTNode {
    Program(ProgramNode),
    ProgramName(ProgramNameNode),
    FunctionDecl(FunctionDeclNode),
    ProcedureDecl(ProcedureDeclNode),
    Block(BlockNode),
    // Expressions
    BinaryExpression(BinaryExprNode),
    VarName(VariableNameExpressionNode),
    ArrayRef(ArrayRefExpr),
    Literal(LiteralExprNode),
    UnaryExpression(UnaryExprNode),
    VarReassignment(VarReassignmentExprNode),
    // Declarations
    VariableDecl(VariableDeclNode),
    // Statements
    WhileStmt(WhileStmtNode),
    IfStmt(IfStmtNode),
    ElseStmt(ElseStmtNode),
    PrintStmt(PrintStmtNode),
    ReadStmt(ReadStmtNode),
    AssertStmt(AssertStmtNode),
    FunctionCallStmt(FunctionCallNode),
    ProcedureCallStmt(ProcedureCallNode),
    ReturnStmt(ReturnStmtNode),
    // Void node for EOF
    EofStmt(EofNode),
}

/// Node that rapresent a whole program
#[derive(Clone, Debug)]
pub struct ProgramNode {
    pub program_name: ProgramNameNode,
    pub functions: Vec<FunctionDeclNode>,
    pub procedures: Vec<ProcedureDeclNode>,
    pub main_block: BlockNode,
}

/// Node that rapresents a binary expression
#[derive(Clone, Debug)]
pub struct BinaryExprNode {
    pub position: Position,
    pub left: Box<ASTNode>,
    pub op: Token,
    pub op_type: BinaryExprType,
    pub right: Box<ASTNode>,
    pub r_type: Type,
}

/// Binary expression type, to know what to do with a binary
/// expression node
#[derive(PartialEq, Eq, Structural, Clone, Copy, Debug)]
pub enum BinaryExprType {
    Addition,
    Subtraction,
    Multiplication,
    Division,
    LogicAND,
    LogicEQ,
    LogicGreaterThan,
    LogicGreaterThanEQ,
    LogicLessThan,
    LogicLessThanEQ,
}

/// Node to rapresent an Identifier
#[derive(Clone, Debug)]
pub struct VariableNameExpressionNode {
    pub position: Position,
    pub id: Token,
    pub r_type: Type,
    pub s_type: SymbolType,
}

/// Node to rapresent a reference to an element of an array
#[derive(Clone, Debug)]
pub struct ArrayRefExpr {
    pub position: Position,
    pub array: Token,
    pub index: Box<ASTNode>,
    pub r_type: Type,
}

/// Node to rapresent a literal
#[derive(Clone, Debug)]
pub struct LiteralExprNode {
    pub position: Position,
    pub value: Object,
    pub r_type: Type,
}

/// Node to rapresent a unary expression (Namely !<expression>)
#[derive(Clone, Debug)]
pub struct UnaryExprNode {
    pub position: Position,
    pub operand: Token,
    pub expression: Box<ASTNode>,
    pub r_type: Type,
}

/// Node that rapresent a statement to declare a variable
#[derive(Clone, Debug)]
pub struct VariableDeclNode {
    pub position: Position,
    pub id: Token,
    pub var_type: Type,
    pub value: Option<ExpressionStmtNode>,
}

/// Node to rapresent an expression whose kind the context gives
#[derive(Clone, Debug)]
pub struct ExpressionStmtNode {
    pub position: Position,
    pub child: Box<ASTNode>,
    pub r_type: Type,
}

/// Node to rapresent a while statement
#[derive(Clone, Debug)]
pub struct WhileStmtNode {
    pub position: Position,
    pub guard: Box<ASTNode>,
    pub block: Box<ASTNode>,
}

/// Node to rapresent a read statement
#[derive(Clone, Debug)]
pub struct ReadStmtNode {
    pub position: Position,
    pub variable_to_read_in: Box<ASTNode>,
}

/// Node that rapresent a statement to assign a value to a variable
#[derive(Clone, Debug)]
pub struct VarReassignmentExprNode {
    pub position: Position,
    pub variable_to_reassign: Box<ASTNode>,
    pub new_value: Box<ASTNode>,
}

/// Node to rapresent a print statement
#[derive(Clone, Debug)]
pub struct PrintStmtNode {
    pub to_print: Box<ASTNode>,
    pub position: Position,
}

/// Node to rapresent a assert statement
#[derive(Clone, Debug)]
pub struct AssertStmtNode {
    pub position: Position,
    pub expr: Box<ASTNode>,
}

#[derive(Clone, Debug)]
pub struct FunctionDeclNode {
    pub name: String,
    pub position: Position,
    pub args: SymbolTable,
    pub block: Box<ASTNode>,
    pub r_type: Type,
}

/// An argument of a call: the name of the parameter it is for, and its
/// value.
#[derive(Clone, Debug)]
pub struct CallArg {
    pub name: String,
    pub value: ASTNode,
}

#[derive(Clone, Debug)]
pub struct FunctionCallNode {
    pub position: Position,
    pub args: Vec<CallArg>,
    pub target: String,
    pub r_type: Type,
}

#[derive(Clone, Debug)]
pub struct ProcedureDeclNode {
    pub name: String,
    pub position: Position,
    pub args: SymbolTable,
    pub block: Box<ASTNode>,
}

#[derive(Clone, Debug)]
pub struct ProcedureCallNode {
    pub position: Position,
    pub args: Vec<CallArg>,
    pub target: String,
}

#[derive(Clone, Debug)]
pub struct BlockNode {
    pub position: Position,
    pub context: SymbolTable,
    pub statements: Vec<ASTNode>,
}

#[derive(Clone, Debug)]
pub struct IfStmtNode {
    pub position: Position,
    pub guard: Box<ASTNode>,
    pub then_stmt: Box<ASTNode>,
    pub else_stmt: Option<Box<ASTNode>>,
}

#[derive(Clone, Debug)]
pub struct ElseStmtNode {
    pub position: Position,
    pub block: Box<ASTNode>,
}

#[derive(Clone, Debug)]
pub struct ProgramNameNode {
    pub name: Token,
}

#[derive(Clone, Debug)]
pub struct ReturnStmtNode {
    pub token: Token,
    pub value: Option<Box<ASTNode>>,
}

#[derive(Clone, Debug)]
pub struct EofNode {
    pub eof: Token,
}

impl BinaryExprType {
    /// The operator that a token kind stands for.
    pub open spec fn of_kind(k: Kind) -> Option<BinaryExprType> {
        match k {
            Kind::Plus => Some(BinaryExprType::Addition),
            Kind::Minus => Some(BinaryExprType::Subtraction),
            Kind::Star => Some(BinaryExprType::Multiplication),
            Kind::Slash => Some(BinaryExprType::Division),
            Kind::And => Some(BinaryExprType::LogicAND),
            Kind::Equal => Some(BinaryExprType::LogicEQ),
            Kind::Greater => Some(BinaryExprType::LogicGreaterThan),
            Kind::GreaterEqual => Some(BinaryExprType::LogicGreaterThanEQ),
            Kind::Less => Some(BinaryExprType::LogicLessThan),
            Kind::LessEqual => Some(BinaryExprType::LogicLessThanEQ),
            _ => None,
        }
    }

    /// Whether the operator compares two numbers.
    pub open spec fn is_comparison(self) -> bool {
        self == BinaryExprType::LogicGreaterThan || self == BinaryExprType::LogicGreaterThanEQ
            || self == BinaryExprType::LogicLessThan || self == BinaryExprType::LogicLessThanEQ
    }

    /// The table of legal operand types: the type of the operator's
    /// result on operands of the types `l` and `r`, and `None` where the
    /// combination is not legal.
    ///
    /// The two types are the same base type in every legal case.
    /// `+` takes two `Int`, two `Real` or two `String`; `-` two `Int` or
    /// two `Real`; `*` and `/` two `Int`; the comparisons two `Int` or two
    /// `Real`, and give `Bool`; `=` takes two operands of any base type
    /// but `Void`, and gives `Bool`; `and` takes two `Bool`.
    pub open spec fn result(self, l: Type, r: Type) -> Option<Type> {
        if l != r {
            None
        } else {
            match l {
                Type::Array(_) => None,
                Type::Simple(t) => match self {
                    BinaryExprType::Addition => if t == SimpleType::Int || t == SimpleType::Real || t
                        == SimpleType::String {
                        Some(l)
                    } else {
                        None
                    },
                    BinaryExprType::Subtraction => if t == SimpleType::Int || t == SimpleType::Real {
                        Some(l)
                    } else {
                        None
                    },
                    BinaryExprType::Multiplication | BinaryExprType::Division => if t
                        == SimpleType::Int {
                        Some(l)
                    } else {
                        None
                    },
                    BinaryExprType::LogicAND => if t == SimpleType::Bool {
                        Some(Type::Simple(SimpleType::Bool))
                    } else {
                        None
                    },
                    BinaryExprType::LogicEQ => if t != SimpleType::Void {
                        Some(Type::Simple(SimpleType::Bool))
                    } else {
                        None
                    },
                    _ => if t == SimpleType::Int || t == SimpleType::Real {
                        Some(Type::Simple(SimpleType::Bool))
                    } else {
                        None
                    },
                },
            }
        }
    }

    /// The operator as it is written in the generated code.
    pub open spec fn c_operator(self) -> Seq<char> {
        match self {
            BinaryExprType::Addition => "+"@,
            BinaryExprType::Subtraction => "-"@,
            BinaryExprType::Multiplication => "*"@,
            BinaryExprType::Division => "/"@,
            BinaryExprType::LogicAND => "&&"@,
            BinaryExprType::LogicEQ => "=="@,
            BinaryExprType::LogicGreaterThan => ">"@,
            BinaryExprType::LogicGreaterThanEQ => ">="@,
            BinaryExprType::LogicLessThan => "<"@,
            BinaryExprType::LogicLessThanEQ => "<="@,
        }
    }

    /// The name of the operator.
    pub open spec fn text(self) -> Seq<char> {
        match self {
            BinaryExprType::Addition => "Addition"@,
            BinaryExprType::Subtraction => "Subtraction"@,
            BinaryExprType::Multiplication => "Multiplication"@,
            BinaryExprType::Division => "Division"@,
            BinaryExprType::LogicAND => "LogicAND"@,
            BinaryExprType::LogicEQ => "LogicEQ"@,
            BinaryExprType::LogicGreaterThan => "LogicGreaterThan"@,
            BinaryExprType::LogicGreaterThanEQ => "LogicGreaterThanEQ"@,
            BinaryExprType::LogicLessThan => "LogicLessThan"@,
            BinaryExprType::LogicLessThanEQ => "LogicLessThanEQ"@,
        }
    }

    pub fn from_kind(k: Kind) -> (op: Option<BinaryExprType>)
        ensures
            op == Self::of_kind(k),
    {
        match k {
            Kind::Plus => Some(BinaryExprType::Addition),
            Kind::Minus => Some(BinaryExprType::Subtraction),
            Kind::Star => Some(BinaryExprType::Multiplication),
            Kind::Slash => Some(BinaryExprType::Division),
            Kind::And => Some(BinaryExprType::LogicAND),
            Kind::Equal => Some(BinaryExprType::LogicEQ),
            Kind::Greater => Some(BinaryExprType::LogicGreaterThan),
            Kind::GreaterEqual => Some(BinaryExprType::LogicGreaterThanEQ),
            Kind::Less => Some(BinaryExprType::LogicLessThan),
            Kind::LessEqual => Some(BinaryExprType::LogicLessThanEQ),
            _ => None,
        }
    }

    /// The type of the result on operands of the types `l` and `r`, if
    /// the combination is legal.
    pub fn result_type(&self, l: Type, r: Type) -> (t: Option<Type>)
        ensures
            t == self.result(l, r),
    {
        if l != r {
            return None;
        }
        match l {
            Type::Array(_) => None,
            Type::Simple(t) => match self {
                BinaryExprType::Addition => match t {
                    SimpleType::Int | SimpleType::Real | SimpleType::String => Some(l),
                    _ => None,
                },
                BinaryExprType::Subtraction => match t {
                    SimpleType::Int | SimpleType::Real => Some(l),
                    _ => None,
                },
                BinaryExprType::Multiplication | BinaryExprType::Division => match t {
                    SimpleType::Int => Some(l),
                    _ => None,
                },
                BinaryExprType::LogicAND => match t {
                    SimpleType::Bool => Some(Type::Simple(SimpleType::Bool)),
                    _ => None,
                },
                BinaryExprType::LogicEQ => match t {
                    SimpleType::Void => None,
                    _ => Some(Type::Simple(SimpleType::Bool)),
                },
                _ => match t {
                    SimpleType::Int | SimpleType::Real => Some(Type::Simple(SimpleType::Bool)),
                    _ => None,
                },
            },
        }
    }

    pub fn to_c_operator(&self) -> (s: String)
        ensures
            s@ == self.c_operator(),
    {
        match self {
            BinaryExprType::Addition => copy_str("+"),
            BinaryExprType::Subtraction => copy_str("-"),
            BinaryExprType::Multiplication => copy_str("*"),
            BinaryExprType::Division => copy_str("/"),
            BinaryExprType::LogicAND => copy_str("&&"),
            BinaryExprType::LogicEQ => copy_str("=="),
            BinaryExprType::LogicGreaterThan => copy_str(">"),
            BinaryExprType::LogicGreaterThanEQ => copy_str(">="),
            BinaryExprType::LogicLessThan => copy_str("<"),
            BinaryExprType::LogicLessThanEQ => copy_str("<="),
        }
    }

    pub fn to_string(&self) -> (s: String)
        ensures
            s@ == self.text(),
    {
        match self {
            BinaryExprType::Addition => copy_str("Addition"),
            BinaryExprType::Subtraction => copy_str("Subtraction"),
            BinaryExprType::Multiplication => copy_str("Multiplication"),
            BinaryExprType::Division => copy_str("Division"),
            BinaryExprType::LogicAND => copy_str("LogicAND"),
            BinaryExprType::LogicEQ => copy_str("LogicEQ"),
            BinaryExprType::LogicGreaterThan => copy_str("LogicGreaterThan"),
            BinaryExprType::LogicGreaterThanEQ => copy_str("LogicGreaterThanEQ"),
            BinaryExprType::LogicLessThan => copy_str("LogicLessThan"),
            BinaryExprType::LogicLessThanEQ => copy_str("LogicLessThanEQ"),
        }
    }
}

/// The type of what is not an expression.
pub open spec fn void() -> Type {
    Type::Simple(SimpleType::Void)
}

/// The type of truth values.
pub open spec fn boolean() -> Type {
    Type::Simple(SimpleType::Bool)
}

/// The type of whole numbers.
pub open spec fn integer() -> Type {
    Type::Simple(SimpleType::Int)
}

impl ASTNode {
    /// The static type of the node: that of an expression, `Void` for a
    /// statement; a `return` has the type of its value.
    pub open spec fn spec_r_type(&self) -> Type
        decreases self,
    {
        match self {
            ASTNode::BinaryExpression(e) => e.r_type,
            ASTNode::VarName(i) => i.r_type,
            ASTNode::Literal(l) => l.r_type,
            ASTNode::UnaryExpression(u) => u.r_type,
            ASTNode::FunctionCallStmt(f) => f.r_type,
            ASTNode::ArrayRef(a) => a.r_type,
            ASTNode::ReturnStmt(r) => match r.value {
                Some(v) => v.spec_r_type(),
                None => void(),
            },
            _ => void(),
        }
    }

    #[verifier::when_used_as_spec(spec_r_type)]
    pub fn r_type(&self) -> (t: Type)
        ensures
            t == self.spec_r_type(),
        decreases self,
    {
        match self {
            ASTNode::BinaryExpression(e) => e.r_type,
            ASTNode::VarName(i) => i.r_type,
            ASTNode::Literal(l) => l.r_type,
            ASTNode::UnaryExpression(u) => u.r_type,
            ASTNode::FunctionCallStmt(f) => f.r_type,
            ASTNode::ArrayRef(a) => a.r_type,
            ASTNode::ReturnStmt(r) => match &r.value {
                Some(v) => v.r_type(),
                None => Type::Simple(SimpleType::Void),
            },
            _ => Type::Simple(SimpleType::Void),
        }
    }

    /// Where the node stands in the source.
    pub open spec fn spec_position(&self) -> Position {
        match self {
            ASTNode::Program(p) => p.program_name.name.position,
            ASTNode::ProgramName(n) => n.name.position,
            ASTNode::FunctionDecl(f) => f.position,
            ASTNode::ProcedureDecl(p) => p.position,
            ASTNode::Block(b) => b.position,
            ASTNode::BinaryExpression(e) => e.position,
            ASTNode::VarName(v) => v.position,
            ASTNode::ArrayRef(a) => a.position,
            ASTNode::Literal(l) => l.position,
            ASTNode::UnaryExpression(u) => u.position,
            ASTNode::VarReassignment(a) => a.position,
            ASTNode::VariableDecl(d) => d.position,
            ASTNode::WhileStmt(w) => w.position,
            ASTNode::IfStmt(i) => i.position,
            ASTNode::ElseStmt(e) => e.position,
            ASTNode::PrintStmt(p) => p.position,
            ASTNode::ReadStmt(r) => r.position,
            ASTNode::AssertStmt(a) => a.position,
            ASTNode::FunctionCallStmt(f) => f.position,
            ASTNode::ProcedureCallStmt(p) => p.position,
            ASTNode::ReturnStmt(r) => r.token.position,
            ASTNode::EofStmt(e) => e.eof.position,
        }
    }

    #[verifier::when_used_as_spec(spec_position)]
    pub fn position(&self) -> (p: Position)
        ensures
            p == self.spec_position(),
    {
        match self {
            ASTNode::Program(p) => p.program_name.name.position,
            ASTNode::ProgramName(n) => n.name.position,
            ASTNode::FunctionDecl(f) => f.position,
            ASTNode::ProcedureDecl(p) => p.position,
            ASTNode::Block(b) => b.position,
            ASTNode::BinaryExpression(e) => e.position,
            ASTNode::VarName(v) => v.position,
            ASTNode::ArrayRef(a) => a.position,
            ASTNode::Literal(l) => l.position,
            ASTNode::UnaryExpression(u) => u.position,
            ASTNode::VarReassignment(a) => a.position,
            ASTNode::VariableDecl(d) => d.position,
            ASTNode::WhileStmt(w) => w.position,
            ASTNode::IfStmt(i) => i.position,
            ASTNode::ElseStmt(e) => e.position,
            ASTNode::PrintStmt(p) => p.position,
            ASTNode::ReadStmt(r) => r.position,
            ASTNode::AssertStmt(a) => a.position,
            ASTNode::FunctionCallStmt(f) => f.position,
            ASTNode::ProcedureCallStmt(p) => p.position,
            ASTNode::ReturnStmt(r) => r.token.position,
            ASTNode::EofStmt(e) => e.eof.position,
        }
    }

    /// What the node is called in messages.
    pub open spec fn text(&self) -> Seq<char> {
        match self {
            ASTNode::Program(_) => "program"@,
            ASTNode::BinaryExpression(_) => "binary expression"@,
            ASTNode::VarName(_) => "identifier"@,
            ASTNode::Literal(_) => "literal"@,
            ASTNode::UnaryExpression(_) => "unary expression"@,
            ASTNode::VarReassignment(_) => "var reassignment"@,
            ASTNode::VariableDecl(_) => "variable declaraion"@,
            ASTNode::PrintStmt(_) => "print"@,
            ASTNode::ReadStmt(_) => "read"@,
            ASTNode::AssertStmt(_) => "assert"@,
            ASTNode::EofStmt(_) => "end of file"@,
            ASTNode::FunctionDecl(_) => "function"@,
            ASTNode::ProcedureDecl(_) => "procedure"@,
            ASTNode::Block(_) => "block"@,
            ASTNode::ProgramName(_) => "program name"@,
            ASTNode::FunctionCallStmt(_) => "function call"@,
            ASTNode::ProcedureCallStmt(_) => "procedure call"@,
            ASTNode::ReturnStmt(_) => "return statement"@,
            ASTNode::WhileStmt(_) => "while loop"@,
            ASTNode::ArrayRef(_) => "array reference"@,
            ASTNode::IfStmt(_) => "If statement"@,
            ASTNode::ElseStmt(_) => "else statement"@,
        }
    }

    pub fn to_string(&self) -> (s: String)
        ensures
            s@ == self.text(),
    {
        match self {
            ASTNode::Program(_) => copy_str("program"),
            ASTNode::BinaryExpression(_) => copy_str("binary expression"),
            ASTNode::VarName(_) => copy_str("identifier"),
            ASTNode::Literal(_) => copy_str("literal"),
            ASTNode::UnaryExpression(_) => copy_str("unary expression"),
            ASTNode::VarReassignment(_) => copy_str("var reassignment"),
            ASTNode::VariableDecl(_) => copy_str("variable declaraion"),
            ASTNode::PrintStmt(_) => copy_str("print"),
            ASTNode::ReadStmt(_) => copy_str("read"),
            ASTNode::AssertStmt(_) => copy_str("assert"),
            ASTNode::EofStmt(_) => copy_str("end of file"),
            ASTNode::FunctionDecl(_) => copy_str("function"),
            ASTNode::ProcedureDecl(_) => copy_str("procedure"),
            ASTNode::Block(_) => copy_str("block"),
            ASTNode::ProgramName(_) => copy_str("program name"),
            ASTNode::FunctionCallStmt(_) => copy_str("function call"),
            ASTNode::ProcedureCallStmt(_) => copy_str("procedure call"),
            ASTNode::ReturnStmt(_) => copy_str("return statement"),
            ASTNode::WhileStmt(_) => copy_str("while loop"),
            ASTNode::ArrayRef(_) => copy_str("array reference"),
            ASTNode::IfStmt(_) => copy_str("If statement"),
            ASTNode::ElseStmt(_) => copy_str("else statement"),
        }
    }

    /// Whether the node can be the target of an assignment or of a
    /// `read`: a variable, or an element of an array.
    pub open spec fn is_place(&self) -> bool {
        self is VarName || self is ArrayRef
    }

    /// Whether the tree obeys the static type rules.
    ///
    /// Every binary expression is a legal combination of operator and
    /// operand types, with the type that the table gives; `!` has a
    /// `Bool` operand; an index is an `Int`; a literal has the type of
    /// its value, an array literal elements of one base type; a name
    /// that is read or assigned is no function or procedure; the two
    /// sides of an assignment, and a declared type and its initial
    /// value, agree; the guard of `if` and `while` and the operand of
    /// `assert` are `Bool`; nothing of type `Void` is printed or read.
    pub open spec fn well_typed(&self) -> bool
        decreases self,
    {
        match self {
            ASTNode::Program(p) => {
                &&& forall|i: int|
                    0 <= i < p.functions@.len() ==> (#[trigger] p.functions@[i]).block.well_typed()
                &&& forall|i: int|
                    0 <= i < p.procedures@.len() ==> (#[trigger] p.procedures@[i]).block.well_typed()
                &&& forall|i: int|
                    0 <= i < p.main_block.statements@.len() ==> (
                    #[trigger] p.main_block.statements@[i]).well_typed()
            },
            ASTNode::ProgramName(_) => true,
            ASTNode::FunctionDecl(f) => f.block.well_typed(),
            ASTNode::ProcedureDecl(p) => p.block.well_typed(),
            ASTNode::Block(b) => forall|i: int|
                0 <= i < b.statements@.len() ==> (#[trigger] b.statements@[i]).well_typed(),
            ASTNode::BinaryExpression(e) => {
                &&& e.left.well_typed()
                &&& e.right.well_typed()
                &&& e.op_type.result(e.left.spec_r_type(), e.right.spec_r_type()) == Some(e.r_type)
            },
            ASTNode::VarName(v) => v.s_type.is_storage(),
            ASTNode::ArrayRef(a) => {
                &&& a.index.well_typed()
                &&& a.index.spec_r_type() == integer()
                &&& a.r_type is Simple
                &&& a.r_type != void()
            },
            ASTNode::Literal(l) => l.value.has_type(l.r_type) && l.r_type.base() != SimpleType::Void,
            ASTNode::UnaryExpression(u) => {
                &&& u.expression.well_typed()
                &&& u.expression.spec_r_type() == boolean()
                &&& u.r_type == boolean()
            },
            ASTNode::VarReassignment(a) => {
                &&& a.variable_to_reassign.is_place()
                &&& a.variable_to_reassign.well_typed()
                &&& a.new_value.well_typed()
                &&& a.new_value.spec_r_type() == a.variable_to_reassign.spec_r_type()
            },
            ASTNode::VariableDecl(d) => match d.value {
                Some(e) => e.child.well_typed() && e.child.spec_r_type() == d.var_type && e.r_type
                    == d.var_type,
                None => true,
            },
            ASTNode::WhileStmt(w) => {
                &&& w.guard.well_typed()
                &&& w.guard.spec_r_type() == boolean()
                &&& w.block.well_typed()
            },
            ASTNode::IfStmt(i) => {
                &&& i.guard.well_typed()
                &&& i.guard.spec_r_type() == boolean()
                &&& i.then_stmt.well_typed()
                &&& match i.else_stmt {
                    Some(e) => e.well_typed(),
                    None => true,
                }
            },
            ASTNode::ElseStmt(e) => e.block.well_typed(),
            ASTNode::PrintStmt(p) => p.to_print.well_typed() && p.to_print.spec_r_type() != void(),
            ASTNode::ReadStmt(r) => {
                &&& r.variable_to_read_in.is_place()
                &&& r.variable_to_read_in.well_typed()
                &&& r.variable_to_read_in.spec_r_type() is Simple
                &&& r.variable_to_read_in.spec_r_type() != void()
            },
            ASTNode::AssertStmt(a) => a.expr.well_typed() && a.expr.spec_r_type() == boolean(),
            ASTNode::FunctionCallStmt(f) => forall|i: int|
                0 <= i < f.args@.len() ==> (#[trigger] f.args@[i]).value.well_typed(),
            ASTNode::ProcedureCallStmt(p) => forall|i: int|
                0 <= i < p.args@.len() ==> (#[trigger] p.args@[i]).value.well_typed(),
            ASTNode::ReturnStmt(r) => match r.value {
                Some(v) => v.well_typed(),
                None => true,
            },
            ASTNode::EofStmt(_) => true,
        }
    }
}

impl ASTNode {
    /// Copies of the nodes of a list, in order.
    #[verifier::loop_isolation(false)]
    fn copy_nodes(nodes: &Vec<ASTNode>) -> (r: Vec<ASTNode>)
        ensures
            trees(r@) == trees(nodes@),
        decreases nodes, 0nat,
    {
        let mut r: Vec<ASTNode> = Vec::new();
        let mut i: usize = 0;
        while i < nodes.len()
            invariant
                i <= nodes.len(),
                r@.len() == i,
                forall|j: int| 0 <= j < i ==> (#[trigger] r@[j]).tree() == nodes@[j].tree(),
            decreases nodes.len() - i,
        {
            let node = nodes[i].copy();
            r.push(node);
            i = i + 1;
        }
        assert(trees(r@) =~= trees(nodes@));
        r
    }

    /// Copies of the arguments of a call, in order.
    #[verifier::loop_isolation(false)]
    fn copy_arguments(args: &Vec<CallArg>) -> (r: Vec<CallArg>)
        ensures
            arguments(r@) == arguments(args@),
        decreases args, 0nat,
    {
        let mut r: Vec<CallArg> = Vec::new();
        let mut i: usize = 0;
        while i < args.len()
            invariant
                i <= args.len(),
                r@.len() == i,
                forall|j: int|
                    0 <= j < i ==> (#[trigger] r@[j]).value.tree() == args@[j].value.tree() && r@[j].name@
                        == args@[j].name@,
            decreases args.len() - i,
        {
            let value = args[i].value.copy();
            r.push(CallArg { name: args[i].name.clone(), value });
            i = i + 1;
        }
        assert(arguments(r@) =~= arguments(args@));
        r
    }

    /// A copy of the declaration of a function.
    fn copy_function(f: &FunctionDeclNode) -> (r: FunctionDeclNode)
        ensures
            ASTNode::FunctionDecl(r).tree() == ASTNode::FunctionDecl(*f).tree(),
        decreases f, 0nat,
    {
        FunctionDeclNode {
            name: f.name.clone(),
            position: f.position,
            args: f.args.copy(),
            block: Box::new(f.block.copy()),
            r_type: f.r_type,
        }
    }

    /// A copy of the declaration of a procedure.
    fn copy_procedure(p: &ProcedureDeclNode) -> (r: ProcedureDeclNode)
        ensures
            ASTNode::ProcedureDecl(r).tree() == ASTNode::ProcedureDecl(*p).tree(),
        decreases p, 0nat,
    {
        ProcedureDeclNode {
            name: p.name.clone(),
            position: p.position,
            args: p.args.copy(),
            block: Box::new(p.block.copy()),
        }
    }

    /// Copies of the declarations of a list of functions, in order.
    #[verifier::loop_isolation(false)]
    fn copy_functions(nodes: &Vec<FunctionDeclNode>) -> (r: Vec<FunctionDeclNode>)
        ensures
            function_trees(r@) == function_trees(nodes@),
        decreases nodes, 1nat,
    {
        let mut r: Vec<FunctionDeclNode> = Vec::new();
        let mut i: usize = 0;
        while i < nodes.len()
            invariant
                i <= nodes.len(),
                r@.len() == i,
                forall|j: int|
                    0 <= j < i ==> ASTNode::FunctionDecl(#[trigger] r@[j]).tree()
                        == ASTNode::FunctionDecl(nodes@[j]).tree(),
            decreases nodes.len() - i,
        {
            let node = Self::copy_function(&nodes[i]);
            r.push(node);
            i = i + 1;
        }
        assert(function_trees(r@) =~= function_trees(nodes@)) by {
            assert forall|j: int| 0 <= j < r@.len() implies function_trees(r@)[j] == function_trees(
                nodes@,
            )[j] by {
                assert(ASTNode::FunctionDecl(r@[j]).tree() == ASTNode::FunctionDecl(
                    nodes@[j],
                ).tree());
            }
        }
        r
    }

    /// Copies of the declarations of a list of procedures, in order.
    #[verifier::loop_isolation(false)]
    fn copy_procedures(nodes: &Vec<ProcedureDeclNode>) -> (r: Vec<ProcedureDeclNode>)
        ensures
            procedure_trees(r@) == procedure_trees(nodes@),
        decreases nodes, 1nat,
    {
        let mut r: Vec<ProcedureDeclNode> = Vec::new();
        let mut i: usize = 0;
        while i < nodes.len()
            invariant
                i <= nodes.len(),
                r@.len() == i,
                forall|j: int|
                    0 <= j < i ==> ASTNode::ProcedureDecl(#[trigger] r@[j]).tree()
                        == ASTNode::ProcedureDecl(nodes@[j]).tree(),
            decreases nodes.len() - i,
        {
            let node = Self::copy_procedure(&nodes[i]);
            r.push(node);
            i = i + 1;
        }
        assert(procedure_trees(r@) =~= procedure_trees(nodes@)) by {
            assert forall|j: int| 0 <= j < r@.len() implies procedure_trees(r@)[j]
                == procedure_trees(nodes@)[j] by {
                assert(ASTNode::ProcedureDecl(r@[j]).tree() == ASTNode::ProcedureDecl(
                    nodes@[j],
                ).tree());
            }
        }
        r
    }

    /// A copy of a program.
    fn copy_program(p: &ProgramNode) -> (r: ProgramNode)
        ensures
            ASTNode::Program(r).tree() == ASTNode::Program(*p).tree(),
        decreases p, 0nat,
    {
        ProgramNode {
            program_name: ProgramNameNode { name: p.program_name.name.clone() },
            functions: Self::copy_functions(&p.functions),
            procedures: Self::copy_procedures(&p.procedures),
            main_block: BlockNode {
                position: p.main_block.position,
                context: p.main_block.context.copy(),
                statements: Self::copy_nodes(&p.main_block.statements),
            },
        }
    }

    /// A copy of a block.
    fn copy_block(b: &BlockNode) -> (r: BlockNode)
        ensures
            ASTNode::Block(r).tree() == ASTNode::Block(*b).tree(),
        decreases b, 0nat,
    {
        BlockNode {
            position: b.position,
            context: b.context.copy(),
            statements: Self::copy_nodes(&b.statements),
        }
    }

    /// A copy of a binary expression.
    fn copy_binary(e: &BinaryExprNode) -> (r: BinaryExprNode)
        ensures
            ASTNode::BinaryExpression(r).tree() == ASTNode::BinaryExpression(*e).tree(),
        decreases e, 0nat,
    {
        BinaryExprNode {
            position: e.position,
            left: Box::new(e.left.copy()),
            op: e.op.clone(),
            op_type: e.op_type,
            right: Box::new(e.right.copy()),
            r_type: e.r_type,
        }
    }

    /// A copy of a name.
    fn copy_var_name(v: &VariableNameExpressionNode) -> (r: VariableNameExpressionNode)
        ensures
            ASTNode::VarName(r).tree() == ASTNode::VarName(*v).tree(),
        decreases v, 0nat,
    {
        VariableNameExpressionNode {
            position: v.position,
            id: v.id.clone(),
            r_type: v.r_type,
            s_type: v.s_type,
        }
    }

    /// A copy of a reference to an element of an array.
    fn copy_array_ref(a: &ArrayRefExpr) -> (r: ArrayRefExpr)
        ensures
            ASTNode::ArrayRef(r).tree() == ASTNode::ArrayRef(*a).tree(),
        decreases a, 0nat,
    {
        ArrayRefExpr {
            position: a.position,
            array: a.array.clone(),
            index: Box::new(a.index.copy()),
            r_type: a.r_type,
        }
    }

    /// A copy of a literal.
    fn copy_literal(l: &LiteralExprNode) -> (r: LiteralExprNode)
        ensures
            ASTNode::Literal(r).tree() == ASTNode::Literal(*l).tree(),
        decreases l, 0nat,
    {
        LiteralExprNode { position: l.position, value: l.value.copy(), r_type: l.r_type }
    }

    /// A copy of a negation.
    fn copy_unary(u: &UnaryExprNode) -> (r: UnaryExprNode)
        ensures
            ASTNode::UnaryExpression(r).tree() == ASTNode::UnaryExpression(*u).tree(),
        decreases u, 0nat,
    {
        UnaryExprNode {
            position: u.position,
            operand: u.operand.clone(),
            expression: Box::new(u.expression.copy()),
            r_type: u.r_type,
        }
    }

    /// A copy of an assignment.
    fn copy_assignment(a: &VarReassignmentExprNode) -> (r: VarReassignmentExprNode)
        ensures
            ASTNode::VarReassignment(r).tree() == ASTNode::VarReassignment(*a).tree(),
        decreases a, 0nat,
    {
        VarReassignmentExprNode {
            position: a.position,
            variable_to_reassign: Box::new(a.variable_to_reassign.copy()),
            new_value: Box::new(a.new_value.copy()),
        }
    }

    /// A copy of the declaration of a variable.
    fn copy_var_decl(d: &VariableDeclNode) -> (r: VariableDeclNode)
        ensures
            ASTNode::VariableDecl(r).tree() == ASTNode::VariableDecl(*d).tree(),
        decreases d, 0nat,
    {
        let value = match &d.value {
            Some(e) => Some(
                ExpressionStmtNode {
                    position: e.position,
                    child: Box::new(e.child.copy()),
                    r_type: e.r_type,
                },
            ),
            None => None,
        };
        VariableDeclNode { position: d.position, id: d.id.clone(), var_type: d.var_type, value }
    }

    /// A copy of a while loop.
    fn copy_while(w: &WhileStmtNode) -> (r: WhileStmtNode)
        ensures
            ASTNode::WhileStmt(r).tree() == ASTNode::WhileStmt(*w).tree(),
        decreases w, 0nat,
    {
        WhileStmtNode {
            position: w.position,
            guard: Box::new(w.guard.copy()),
            block: Box::new(w.block.copy()),
        }
    }

    /// A copy of an if statement.
    fn copy_if(i: &IfStmtNode) -> (r: IfStmtNode)
        ensures
            ASTNode::IfStmt(r).tree() == ASTNode::IfStmt(*i).tree(),
        decreases i, 0nat,
    {
        let else_stmt = match &i.else_stmt {
            Some(e) => Some(Box::new(e.copy())),
            None => None,
        };
        IfStmtNode {
            position: i.position,
            guard: Box::new(i.guard.copy()),
            then_stmt: Box::new(i.then_stmt.copy()),
            else_stmt,
        }
    }

    /// A copy of an else branch.
    fn copy_else(e: &ElseStmtNode) -> (r: ElseStmtNode)
        ensures
            ASTNode::ElseStmt(r).tree() == ASTNode::ElseStmt(*e).tree(),
        decreases e, 0nat,
    {
        ElseStmtNode { position: e.position, block: Box::new(e.block.copy()) }
    }

    /// A copy of a print statement.
    fn copy_print(p: &PrintStmtNode) -> (r: PrintStmtNode)
        ensures
            ASTNode::PrintStmt(r).tree() == ASTNode::PrintStmt(*p).tree(),
        decreases p, 0nat,
    {
        PrintStmtNode { to_print: Box::new(p.to_print.copy()), position: p.position }
    }

    /// A copy of a read statement.
    fn copy_read(s: &ReadStmtNode) -> (r: ReadStmtNode)
        ensures
            ASTNode::ReadStmt(r).tree() == ASTNode::ReadStmt(*s).tree(),
        decreases s, 0nat,
    {
        ReadStmtNode {
            position: s.position,
            variable_to_read_in: Box::new(s.variable_to_read_in.copy()),
        }
    }

    /// A copy of an assert statement.
    fn copy_assert(a: &AssertStmtNode) -> (r: AssertStmtNode)
        ensures
            ASTNode::AssertStmt(r).tree() == ASTNode::AssertStmt(*a).tree(),
        decreases a, 0nat,
    {
        AssertStmtNode { position: a.position, expr: Box::new(a.expr.copy()) }
    }

    /// A copy of a call of a function.
    fn copy_function_call(f: &FunctionCallNode) -> (r: FunctionCallNode)
        ensures
            ASTNode::FunctionCallStmt(r).tree() == ASTNode::FunctionCallStmt(*f).tree(),
        decreases f, 0nat,
    {
        FunctionCallNode {
            position: f.position,
            args: Self::copy_arguments(&f.args),
            target: f.target.clone(),
            r_type: f.r_type,
        }
    }

    /// A copy of a call of a procedure.
    fn copy_procedure_call(p: &ProcedureCallNode) -> (r: ProcedureCallNode)
        ensures
            ASTNode::ProcedureCallStmt(r).tree() == ASTNode::ProcedureCallStmt(*p).tree(),
        decreases p, 0nat,
    {
        ProcedureCallNode {
            position: p.position,
            args: Self::copy_arguments(&p.args),
            target: p.target.clone(),
        }
    }

    /// A copy of a return statement.
    fn copy_return(s: &ReturnStmtNode) -> (r: ReturnStmtNode)
        ensures
            ASTNode::ReturnStmt(r).tree() == ASTNode::ReturnStmt(*s).tree(),
        decreases s, 0nat,
    {
        let value = match &s.value {
            Some(v) => Some(Box::new(v.copy())),
            None => None,
        };
        ReturnStmtNode { token: s.token.clone(), value }
    }

    /// A copy of the node, with the whole tree below it.
    pub fn copy(&self) -> (r: ASTNode)
        ensures
            r.tree() == self.tree(),
        decreases self, 2nat,
    {
        match self {
            ASTNode::Program(x) => ASTNode::Program(Self::copy_program(x)),
            ASTNode::Block(x) => ASTNode::Block(Self::copy_block(x)),
            ASTNode::BinaryExpression(x) => ASTNode::BinaryExpression(Self::copy_binary(x)),
            ASTNode::VarName(x) => ASTNode::VarName(Self::copy_var_name(x)),
            ASTNode::ArrayRef(x) => ASTNode::ArrayRef(Self::copy_array_ref(x)),
            ASTNode::Literal(x) => ASTNode::Literal(Self::copy_literal(x)),
            ASTNode::UnaryExpression(x) => ASTNode::UnaryExpression(Self::copy_unary(x)),
            ASTNode::VarReassignment(x) => ASTNode::VarReassignment(Self::copy_assignment(x)),
            ASTNode::VariableDecl(x) => ASTNode::VariableDecl(Self::copy_var_decl(x)),
            ASTNode::WhileStmt(x) => ASTNode::WhileStmt(Self::copy_while(x)),
            ASTNode::IfStmt(x) => ASTNode::IfStmt(Self::copy_if(x)),
            ASTNode::ElseStmt(x) => ASTNode::ElseStmt(Self::copy_else(x)),
            ASTNode::PrintStmt(x) => ASTNode::PrintStmt(Self::copy_print(x)),
            ASTNode::ReadStmt(x) => ASTNode::ReadStmt(Self::copy_read(x)),
            ASTNode::AssertStmt(x) => ASTNode::AssertStmt(Self::copy_assert(x)),
            ASTNode::FunctionCallStmt(x) => ASTNode::FunctionCallStmt(Self::copy_function_call(x)),
            ASTNode::ProcedureCallStmt(x) => ASTNode::ProcedureCallStmt(Self::copy_procedure_call(x)),
            ASTNode::ReturnStmt(x) => ASTNode::ReturnStmt(Self::copy_return(x)),
            ASTNode::FunctionDecl(x) => ASTNode::FunctionDecl(Self::copy_function(x)),
            ASTNode::ProcedureDecl(x) => ASTNode::ProcedureDecl(Self::copy_procedure(x)),
            ASTNode::ProgramName(x) => ASTNode::ProgramName(
                ProgramNameNode { name: x.name.clone() },
            ),
            ASTNode::EofStmt(x) => ASTNode::EofStmt(EofNode { eof: x.eof.clone() }),
        }
    }
}

impl Clone for ASTNode {
    fn clone(&self) -> (r: Self)
        ensures
            r.tree() == self.tree(),
    {
        self.copy()
    }
}

} // verus!
