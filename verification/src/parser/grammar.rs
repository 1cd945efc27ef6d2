//! The grammar of expressions, stated over the state of the parser:
//! which tokens an expression takes, which tree and which type it has,
//! and which error ends it.
//!
//! Each function gives what the parser reads from a state: the value
//! read, or the one error that ends the reading, and the state
//! afterwards. A function that follows another one goes on only where
//! the work that is left has not grown, which is always so, as the
//! lemmas of the module `progress` show; where it asks that it has
//! shrunk, a token was read.

use crate::base::ast::{boolean, integer, ASTNode, BinaryExprType};
use crate::base::errors::{SyntaxError, SyntaxErrorView};
use crate::base::symbol_table::{Entry, SymbolType};
use crate::base::token::{Kind, TokenView};
use crate::base::tree::{Argument, Constant, Tree};
use crate::base::types::{SimpleType, Type};
use crate::parser::rules::{
    call_error, element_error, mismatch_message, not_boolean_message, operands_message, types_fit,
};
use crate::parser::state::{resolve, single_error, unknown_symbol_message, ParserState};
use crate::parser::unexpected_message;
use crate::scanner::position::Position;
use crate::text::integer_literal;
use vstd::prelude::*;

verus! {

/// An expression that the parser has read: its type, whether it is a
/// literal, whether it can be assigned to, what it is called in
/// messages, and its tree.
pub ghost struct Value {
    pub r_type: Type,
    pub literal: bool,
    pub place: bool,
    pub text: Seq<char>,
    pub tree: Tree,
}

/// What was read from a state: a value or the error that ended the
/// reading, and the state afterwards.
pub ghost struct Read<T> {
    pub result: Result<T, SyntaxErrorView>,
    pub state: ParserState,
}

/// What the parser knows of a node.
pub open spec fn summary(node: ASTNode) -> Value {
    Value {
        r_type: node.spec_r_type(),
        literal: node is Literal,
        place: node.is_place(),
        text: node.text(),
        tree: node.tree(),
    }
}

/// What the parser knows of each node of a list.
pub open spec fn summaries(nodes: Seq<ASTNode>) -> Seq<Value> {
    Seq::new(nodes.len(), |i: int| summary(nodes[i]))
}

/// The types of a list of values.
pub open spec fn value_types(values: Seq<Value>) -> Seq<Type> {
    Seq::new(values.len(), |i: int| values[i].r_type)
}

/// The arguments of a call, each with the name of the parameter at its
/// place.
pub open spec fn paired(params: Seq<Entry>, values: Seq<Value>) -> Seq<Argument> {
    Seq::new(values.len(), |i: int| Argument { name: params[i].name, value: values[i].tree })
}

/// A value was read, and the parser is in the state `s`.
pub open spec fn done<T>(v: T, s: ParserState) -> Read<T> {
    Read { result: Ok(v), state: s }
}

/// The reading ended in the state `s` with an error at its current
/// token.
pub open spec fn failed<T>(s: ParserState, description: Seq<char>) -> Read<T> {
    Read { result: Err(s.error(description)), state: s }
}

/// Whether a result of the parser is what was read.
pub open spec fn reads_as(
    r: Result<ASTNode, Vec<SyntaxError>>,
    state: ParserState,
    read: Read<Value>,
) -> bool {
    &&& state == read.state
    &&& match read.result {
        Ok(v) => r matches Ok(node) && summary(node) == v,
        Err(e) => r matches Err(errors) && single_error(errors@, e),
    }
}

/// The literal `value` of the type `t`, written at `position`.
pub open spec fn literal_value(t: Type, position: Position, value: Constant) -> Value {
    Value {
        r_type: t,
        literal: true,
        place: false,
        text: "literal"@,
        tree: Tree::Literal { position, constant: value, r_type: t },
    }
}

/// The name `id`, declared in the role `s_type` with the type `t`.
pub open spec fn variable_value(t: Type, id: TokenView, s_type: SymbolType) -> Value {
    Value {
        r_type: t,
        literal: false,
        place: true,
        text: "identifier"@,
        tree: Tree::VarName { position: id.position, id, r_type: t, s_type },
    }
}

/// The element at `index` of the array `array`, of the type `t`.
pub open spec fn element_value(t: Type, array: TokenView, index: Tree) -> Value {
    Value {
        r_type: t,
        literal: false,
        place: true,
        text: "array reference"@,
        tree: Tree::ArrayRef { position: array.position, array, index: Box::new(index), r_type: t },
    }
}

/// The operator `op` on `left` and `right`, with a result of the type
/// `t`.
pub open spec fn binary_value(
    t: Type,
    op: TokenView,
    op_type: BinaryExprType,
    left: Tree,
    right: Tree,
) -> Value {
    Value {
        r_type: t,
        literal: false,
        place: false,
        text: "binary expression"@,
        tree: Tree::Binary {
            position: op.position,
            left: Box::new(left),
            op,
            op_type,
            right: Box::new(right),
            r_type: t,
        },
    }
}

/// The negation `bang` of `operand`.
pub open spec fn unary_value(bang: TokenView, operand: Tree) -> Value {
    Value {
        r_type: boolean(),
        literal: false,
        place: false,
        text: "unary expression"@,
        tree: Tree::Unary {
            position: bang.position,
            operand: bang,
            expression: Box::new(operand),
            r_type: boolean(),
        },
    }
}

/// The call at `position` of the function `target`, which returns a
/// `t`, with the arguments `args`.
pub open spec fn call_value(
    t: Type,
    position: Position,
    target: Seq<char>,
    args: Seq<Argument>,
) -> Value {
    Value {
        r_type: t,
        literal: false,
        place: false,
        text: "function call"@,
        tree: Tree::FunctionCall { position, args, target, r_type: t },
    }
}

/// What a literal token other than an integer denotes.
pub open spec fn constant_of(t: TokenView) -> Constant {
    if t.kind == Kind::True {
        Constant::Bool(true)
    } else if t.kind == Kind::False {
        Constant::Bool(false)
    } else if t.kind == Kind::LitString {
        Constant::Text(t.lexeme)
    } else {
        Constant::Real(t.lexeme)
    }
}

/// The binary operators of a level of precedence, the lowest level
/// being 5: `and`; `=`; the comparisons; `+` and `-`; `*` and `/`.
pub open spec fn level_operator(level: nat, k: Kind) -> bool {
    if level == 5 {
        k == Kind::And
    } else if level == 4 {
        k == Kind::Equal
    } else if level == 3 {
        k == Kind::Greater || k == Kind::GreaterEqual || k == Kind::Less || k == Kind::LessEqual
    } else if level == 2 {
        k == Kind::Minus || k == Kind::Plus
    } else if level == 1 {
        k == Kind::Slash || k == Kind::Star
    } else {
        false
    }
}

/// The value of a binary expression, or the error for operand types
/// that the operator does not take.
pub open spec fn read_binary(op: TokenView, left: Value, right: Value, s: ParserState) -> Read<
    Value,
> {
    match BinaryExprType::of_kind(op.kind) {
        Some(t) => match t.result(left.r_type, right.r_type) {
            Some(rt) => done(binary_value(rt, op, t, left.tree, right.tree), s),
            None => failed(s, operands_message(t, left.r_type, right.r_type)),
        },
        None => failed(s, "Not a binary operator"@),
    }
}

/// The negation of a primary expression, behind its `!`, which is the
/// current token.
#[verifier::opaque]
pub open spec fn read_negation(s: ParserState) -> Read<Value>
    decreases s.fuel(), 20nat,
{
    let operand = read_unary(s);
    match operand.result {
        Ok(v) => if v.r_type == boolean() {
            done(unary_value(s.current, v.tree), operand.state)
        } else {
            failed(operand.state, not_boolean_message("operand of !"@, v.r_type))
        },
        Err(_) => operand,
    }
}

/// What the current token, an identifier, names in an expression, and
/// the token behind it: a name that no scope declares and the name of
/// a procedure are errors.
#[verifier::opaque]
pub open spec fn read_named(s: ParserState) -> Read<Value>
    decreases s.fuel(), 21nat,
{
    match resolve(s.scopes, s.current.lexeme) {
        None => failed(s, unknown_symbol_message(s.current.lexeme)),
        Some(sym) => if sym.entry.s_type == SymbolType::Procedure {
            failed(s, "Procedures produce no value to return, cannot be used inside an expression"@)
        } else {
            let named = if sym.entry.s_type == SymbolType::Function {
                read_function_call(s)
            } else {
                read_symbol(s)
            };
            match named.result {
                Ok(v) => done(v, named.state.advanced()),
                Err(_) => named,
            }
        },
    }
}

/// The literal that the current token is, and the token behind it. An
/// integer literal whose value does not fit is an error.
pub open spec fn read_literal(s: ParserState) -> Read<Value> {
    let k = s.current.kind;
    let at = s.current.position;
    if k == Kind::True || k == Kind::False {
        done(literal_value(boolean(), at, constant_of(s.current)), s.advanced())
    } else if k == Kind::LitString {
        done(
            literal_value(Type::Simple(SimpleType::String), at, constant_of(s.current)),
            s.advanced(),
        )
    } else if k == Kind::LitReal {
        done(
            literal_value(Type::Simple(SimpleType::Real), at, constant_of(s.current)),
            s.advanced(),
        )
    } else {
        match integer_literal(s.current.lexeme) {
            Some(i) => done(literal_value(integer(), at, Constant::Int(i)), s.advanced()),
            None => failed(s, "Integer literal out of range"@),
        }
    }
}

/// An expression in parentheses, behind its `(`, which is the current
/// token, and the token behind its `)`.
#[verifier::opaque]
pub open spec fn read_group(s: ParserState) -> Read<Value>
    decreases s.fuel(), 22nat,
{
    let inner = read_level(5, s);
    match inner.result {
        Ok(v) => if inner.state.current.kind == Kind::RightParen {
            done(v, inner.state.advanced())
        } else {
            failed(inner.state, "Missing closing bracket"@)
        },
        Err(_) => inner,
    }
}

/// An array literal, from its `[`, which is the current token, and the
/// token behind its `]`.
#[verifier::opaque]
pub open spec fn read_bracket(s: ParserState) -> Read<Value>
    decreases s.fuel(), 23nat,
{
    let array = read_array(s);
    match array.result {
        Ok(v) => done(v, array.state.advanced()),
        Err(_) => array,
    }
}

/// Whether a token of this kind is a literal.
pub open spec fn is_literal(k: Kind) -> bool {
    k == Kind::True || k == Kind::False || k == Kind::LitString || k == Kind::LitInt || k
        == Kind::LitReal
}

/// A primary expression, which begins with the next token: the
/// negation of a primary expression, a name, a literal, an expression
/// in parentheses, or an array literal. It ends with the current token
/// behind the expression.
#[verifier::opaque]
pub open spec fn read_unary(s: ParserState) -> Read<Value>
    decreases s.fuel(), 0nat,
{
    let a = s.advanced();
    let k = a.current.kind;
    if k == Kind::Eof || a.fuel() >= s.fuel() {
        failed(a, "Unexpected token "@ + k.text())
    } else if k == Kind::Bang {
        read_negation(a)
    } else if k == Kind::Identifier {
        read_named(a)
    } else if is_literal(k) {
        read_literal(a)
    } else if k == Kind::LeftParen {
        read_group(a)
    } else if k == Kind::LeftSquare {
        read_bracket(a)
    } else {
        failed(a, "Unexpected token "@ + k.text())
    }
}

/// An expression of a level of precedence: a chain of the operators of
/// the level over expressions of the level above, which associates to
/// the left. Level 0 is that of primary expressions.
#[verifier::opaque]
pub open spec fn read_level(level: nat, s: ParserState) -> Read<Value>
    decreases s.fuel(), 2 * level + 1,
{
    if level == 0 {
        read_unary(s)
    } else {
        let first = read_level((level - 1) as nat, s);
        match first.result {
            Ok(v) => if first.state.fuel() <= s.fuel() {
                read_rest(level, first.state, v)
            } else {
                failed(first.state, Seq::empty())
            },
            Err(_) => first,
        }
    }
}

/// The rest of a chain whose operands so far make the value `left`.
#[verifier::opaque]
pub open spec fn read_rest(level: nat, s: ParserState, left: Value) -> Read<Value>
    decreases s.fuel(), 2 * level,
{
    if level == 0 || !level_operator(level, s.current.kind) {
        done(left, s)
    } else {
        let right = read_level((level - 1) as nat, s);
        match right.result {
            Ok(v) => {
                let both = read_binary(s.current, left, v, right.state);
                match both.result {
                    Ok(b) => if right.state.fuel() < s.fuel() {
                        read_rest(level, right.state, b)
                    } else {
                        failed(right.state, Seq::empty())
                    },
                    Err(_) => both,
                }
            },
            Err(_) => right,
        }
    }
}

/// The elements of an array literal behind the current token, which is
/// its `[` or a comma, up to its `]`. The literal begins at `begin`;
/// the elements so far are `items`, and are of the base type `base`,
/// if there are any.
#[verifier::opaque]
pub open spec fn read_elements(
    s: ParserState,
    base: Option<SimpleType>,
    begin: Position,
    items: Seq<Constant>,
) -> Read<Value>
    decreases s.fuel(), 12nat,
{
    let element = read_unary(s);
    match element.result {
        Ok(v) => {
            let e = element.state;
            let fits = v.literal && v.r_type is Simple && (base matches Some(b) ==> b
                == v.r_type.base());
            if !fits {
                failed(e, element_error(v.literal, v.r_type, v.text))
            } else if e.current.kind == Kind::Comma {
                if e.fuel() < s.fuel() {
                    read_elements(e, Some(v.r_type.base()), begin, items.push(v.tree->constant))
                } else {
                    failed(e, Seq::empty())
                }
            } else if e.current.kind == Kind::RightSquare {
                done(
                    literal_value(
                        Type::Array(v.r_type.base()),
                        begin,
                        Constant::Array(items.push(v.tree->constant)),
                    ),
                    e,
                )
            } else {
                failed(e, "Unexpected token: "@ + e.current.kind.text())
            }
        },
        Err(_) => element,
    }
}

/// An array literal, from its `[`, which is the current token, to its
/// `]`.
#[verifier::opaque]
pub open spec fn read_array(s: ParserState) -> Read<Value>
    decreases s.fuel(), 13nat,
{
    if s.current.kind != Kind::LeftSquare {
        failed(s, unexpected_message(Kind::LeftSquare, s.current.kind))
    } else {
        read_elements(s, None, s.current.position, Seq::empty())
    }
}

/// The arguments of a call behind the current token, which is the `(`
/// or a comma: all arguments, those of `before` first.
#[verifier::opaque]
pub open spec fn read_arguments(s: ParserState, before: Seq<Value>) -> Read<Seq<Value>>
    decreases s.fuel(), 16nat,
{
    let argument = read_level(5, s);
    match argument.result {
        Ok(v) => {
            let e = argument.state;
            if e.current.kind == Kind::Comma {
                if e.fuel() < s.fuel() {
                    read_arguments(e, before.push(v))
                } else {
                    failed(e, Seq::empty())
                }
            } else {
                done(before.push(v), e)
            }
        },
        Err(e) => Read { result: Err(e), state: argument.state },
    }
}

/// The arguments of a call, from the `(`, which is the current token.
/// It ends with the current token behind the last argument.
#[verifier::opaque]
pub open spec fn read_call_parameters(s: ParserState) -> Read<Seq<Value>>
    decreases s.fuel(), 17nat,
{
    let a = s.advanced();
    if a.current.kind == Kind::RightParen {
        done(Seq::empty(), a)
    } else if a.went_back().fuel() <= s.fuel() {
        read_arguments(a.went_back(), Seq::empty())
    } else {
        failed(a, Seq::empty())
    }
}

/// A call of the function that the current token names, up to its `)`.
#[verifier::opaque]
pub open spec fn read_function_call(s: ParserState) -> Read<Value>
    decreases s.fuel(), 14nat,
{
    match resolve(s.scopes, s.current.lexeme) {
        None => failed(s, "Unknown function \""@ + s.current.lexeme + "\""@),
        Some(f) => if f.entry.s_type != SymbolType::Function {
            failed(s, s.current.lexeme + " exists, but is not a function"@)
        } else {
            let a = s.advanced();
            if a.current.kind != Kind::LeftParen {
                failed(a, unexpected_message(Kind::LeftParen, a.current.kind))
            } else if a.fuel() >= s.fuel() {
                failed(a, Seq::empty())
            } else {
                let arguments = read_call_parameters(a);
                match arguments.result {
                    Ok(values) => {
                        let e = arguments.state;
                        let types = value_types(values);
                        match f.params {
                            None => failed(e, "Initialized function with empty arg table"@),
                            Some(params) => if !types_fit(params, types) {
                                failed(e, call_error(params, types))
                            } else if e.current.kind != Kind::RightParen {
                                failed(e, unexpected_message(Kind::RightParen, e.current.kind))
                            } else {
                                done(
                                    call_value(
                                        f.entry.r_type,
                                        s.current.position,
                                        f.entry.name,
                                        paired(params, values),
                                    ),
                                    e,
                                )
                            },
                        }
                    },
                    Err(e) => Read { result: Err(e), state: arguments.state },
                }
            }
        },
    }
}

/// What the current token, an identifier, names: a call of a function,
/// an element of an array, or a variable. It ends at the last token of
/// what was read.
#[verifier::opaque]
pub open spec fn read_symbol(s: ParserState) -> Read<Value>
    decreases s.fuel(), 15nat,
{
    match resolve(s.scopes, s.current.lexeme) {
        None => failed(s, "Unknown symbol: "@ + s.current.lexeme),
        Some(sym) => if sym.entry.s_type == SymbolType::Function {
            read_function_call(s)
        } else if sym.entry.s_type == SymbolType::Procedure {
            failed(s, "Procedures produce no value to return, cannot be used inside an expression"@)
        } else if sym.entry.s_type == SymbolType::Arr {
            let a = s.advanced();
            if a.current.kind != Kind::LeftSquare {
                done(variable_value(sym.entry.r_type, s.current, SymbolType::Arr), a.went_back())
            } else if a.fuel() >= s.fuel() {
                failed(a, Seq::empty())
            } else {
                let index = read_level(5, a);
                match index.result {
                    Ok(v) => {
                        let e = index.state;
                        if e.current.kind != Kind::RightSquare {
                            failed(e, unexpected_message(Kind::RightSquare, e.current.kind))
                        } else if sym.entry.r_type.base() == SimpleType::Void {
                            failed(e, "Arrays of void have no elements"@)
                        } else if v.r_type != integer() {
                            failed(e, mismatch_message("array index"@, integer(), v.r_type))
                        } else {
                            done(
                                element_value(
                                    Type::Simple(sym.entry.r_type.base()),
                                    s.current,
                                    v.tree,
                                ),
                                e,
                            )
                        }
                    },
                    Err(_) => index,
                }
            }
        } else {
            done(variable_value(sym.entry.r_type, s.current, sym.entry.s_type), s)
        },
    }
}

/// An expression.
pub open spec fn read_expression(s: ParserState) -> Read<Value> {
    read_level(5, s)
}

} // verus!
