//! The grammar of types, statements and declarations, stated over the
//! state of the parser: which tokens each takes, which tree it makes,
//! what it declares, and which errors it gives.
//!
//! A statement that has no block in it ends with one error at most; a
//! block goes on after a statement that fails, and gives all the errors
//! that were met in it.

use crate::base::ast::{boolean, integer, void, ASTNode};
use crate::base::errors::{SyntaxError, SyntaxErrorView};
use crate::base::symbol_table::{declared_for, Declared, Entry, SymbolType};
use crate::base::token::{Kind, TokenView};
use crate::base::tree::Tree;
use crate::base::types::{SimpleType, Type};
use crate::parser::grammar::{
    done, element_value, failed, paired, read_call_parameters, read_function_call, read_level,
    read_symbol, value_types, variable_value, Read, Value,
};
use crate::parser::rules::{call_error, mismatch_message, not_boolean_message, types_fit};
use crate::parser::state::{resolve, single_error, ParserState};
use crate::parser::types::{named_type, no_type_message};
use crate::parser::var_declaration::variable;
use crate::parser::{error_views, redeclared_message, unexpected_message, Parser};
use crate::scanner::lexis::line_of;
use crate::scanner::position::Position;
use vstd::prelude::*;

verus! {

/// What was read from a state where more than one error can be met:
/// a value or the errors, and the state afterwards.
pub ghost struct Outcome<T> {
    pub result: Result<T, Seq<SyntaxErrorView>>,
    pub state: ParserState,
}

/// A value was read, and the parser is in the state `s`.
pub open spec fn fine<T>(v: T, s: ParserState) -> Outcome<T> {
    Outcome { result: Ok(v), state: s }
}

/// What was read, as an outcome with a list of errors.
pub open spec fn many<T>(r: Read<T>) -> Outcome<T> {
    Outcome {
        result: match r.result {
            Ok(v) => Ok(v),
            Err(e) => Err(seq![e]),
        },
        state: r.state,
    }
}

/// The reading ended in the state `s` with one error at its current
/// token.
pub open spec fn broken<T>(s: ParserState, description: Seq<char>) -> Outcome<T> {
    Outcome { result: Err(seq![s.error(description)]), state: s }
}

/// Whether a result of the parser is what was read: a node with the
/// tree read, or the one error.
pub open spec fn statement_as(
    r: Result<ASTNode, Vec<SyntaxError>>,
    state: ParserState,
    read: Read<Tree>,
) -> bool {
    &&& state == read.state
    &&& match read.result {
        Ok(t) => r matches Ok(node) && node.tree() == t,
        Err(e) => r matches Err(errors) && single_error(errors@, e),
    }
}

/// Whether a result of the parser is the value that was read, or the
/// one error.
pub open spec fn value_as<T>(r: Result<T, Vec<SyntaxError>>, state: ParserState, read: Read<T>) -> bool {
    &&& state == read.state
    &&& match read.result {
        Ok(v) => r == Ok::<T, Vec<SyntaxError>>(v),
        Err(e) => r matches Err(errors) && single_error(errors@, e),
    }
}

/// One error, as a list of errors.
pub proof fn lemma_single_error(errors: Seq<SyntaxError>, e: SyntaxErrorView)
    requires
        single_error(errors, e),
    ensures
        error_views(errors) == seq![e],
{
    assert(error_views(errors) =~= seq![e]);
}

/// What was read with one error at most is what was read with a list
/// of errors.
pub proof fn lemma_statement_outcome(
    r: Result<ASTNode, Vec<SyntaxError>>,
    state: ParserState,
    read: Read<Tree>,
)
    requires
        statement_as(r, state, read),
    ensures
        outcome_as(r, state, many(read)),
{
    match read.result {
        Ok(_) => {},
        Err(e) => {
            lemma_single_error(r->Err_0@, e);
        },
    }
}

/// Whether a result of the parser is what was read: a node with the
/// tree read, or the errors.
pub open spec fn outcome_as(
    r: Result<ASTNode, Vec<SyntaxError>>,
    state: ParserState,
    read: Outcome<Tree>,
) -> bool {
    &&& state == read.state
    &&& match read.result {
        Ok(t) => r matches Ok(node) && node.tree() == t,
        Err(es) => r matches Err(errors) && error_views(errors@) == es,
    }
}

/// The error for a current token of another kind than `kind`.
pub open spec fn unexpected<T>(s: ParserState, kind: Kind) -> Read<T> {
    failed(s, unexpected_message(kind, s.current.kind))
}

/// What follows `array` in a type: the size in square brackets, `of`,
/// and the name of a base type.
#[verifier::opaque]
pub open spec fn read_array_type(s: ParserState) -> Read<Type> {
    let a = s.advanced();
    let b = a.advanced();
    let c = b.advanced();
    let d = c.advanced();
    let e = d.advanced();
    if a.current.kind != Kind::LeftSquare {
        unexpected(a, Kind::LeftSquare)
    } else if b.current.kind != Kind::LitInt {
        unexpected(b, Kind::LitInt)
    } else if c.current.kind != Kind::RightSquare {
        unexpected(c, Kind::RightSquare)
    } else if d.current.kind != Kind::Of {
        unexpected(d, Kind::Of)
    } else {
        match named_type(e.current.kind) {
            Some(t) => done(Type::Array(t), e),
            None => failed(e, no_type_message(e.current.kind)),
        }
    }
}

/// A type, which begins with the next token: the name of a base type,
/// or `array [size] of` and the name of a base type.
#[verifier::opaque]
pub open spec fn read_type(s: ParserState) -> Read<Type> {
    let a = s.advanced();
    match named_type(a.current.kind) {
        Some(t) => done(Type::Simple(t), a),
        None => if a.current.kind == Kind::TArray {
            read_array_type(a)
        } else {
            failed(a, no_type_message(a.current.kind))
        },
    }
}

/// The name of the program, behind `program`, which is the current
/// token, up to its `;`.
#[verifier::opaque]
pub open spec fn read_program_name(s: ParserState) -> Read<Tree> {
    let a = s.advanced();
    let b = a.advanced();
    if a.current.kind != Kind::Identifier {
        unexpected(a, Kind::Identifier)
    } else if b.current.kind != Kind::Semicolon {
        unexpected(b, Kind::Semicolon)
    } else {
        done(Tree::ProgramName { id: a.current }, b)
    }
}

/// The declaration of a variable, behind `var`, which is the current
/// token, up to its `;`: the name, `:` and the type, and behind `:=` an
/// initial value of that type. The variable is declared in the
/// innermost scope, which must not declare its name already.
#[verifier::opaque]
pub open spec fn read_var_declaration(s: ParserState) -> Read<Tree> {
    let a = s.advanced();
    let b = a.advanced();
    if a.current.kind != Kind::Identifier {
        unexpected(a, Kind::Identifier)
    } else if b.current.kind != Kind::Colon {
        unexpected(b, Kind::Colon)
    } else {
        let t = read_type(b);
        match t.result {
            Err(e) => Read { result: Err(e), state: t.state },
            Ok(var_type) => read_declared_value(t.state, a.current, var_type),
        }
    }
}

/// What follows the type in the declaration of the variable `id`:
/// `;`, or `:=`, an initial value of the type and `;`.
#[verifier::opaque]
pub open spec fn read_declared_value(s: ParserState, id: TokenView, var_type: Type) -> Read<Tree> {
    let c = s.advanced();
    if c.current.kind == Kind::Semicolon {
        declare_variable(c, id, var_type, None)
    } else if c.current.kind == Kind::ColonEqual {
        let v = read_level(5, c);
        match v.result {
            Err(e) => Read { result: Err(e), state: v.state },
            Ok(value) => if v.state.current.kind != Kind::Semicolon {
                unexpected(v.state, Kind::Semicolon)
            } else {
                finish_declaration(v.state, id, var_type, Some(value))
            },
        }
    } else {
        unexpected(c, Kind::Semicolon)
    }
}

/// The end of the declaration of a variable with the initial value
/// `value`, if it has one: its type must be the declared one, and the
/// name is declared in the innermost scope, if it can be.
#[verifier::opaque]
pub open spec fn finish_declaration(
    s: ParserState,
    id: TokenView,
    var_type: Type,
    value: Option<Value>,
) -> Read<Tree> {
    match value {
        Some(found) => if found.r_type != var_type {
            failed(s, mismatch_message("var declaration"@, var_type, found.r_type))
        } else {
            declare_variable(s, id, var_type, Some(found.tree))
        },
        None => declare_variable(s, id, var_type, None),
    }
}

/// The tree of the declaration of the variable `id` with the type
/// `var_type` and the initial value `initial`, if it has one.
pub open spec fn declaration_tree(id: TokenView, var_type: Type, initial: Option<Tree>) -> Tree {
    Tree::VariableDecl {
        position: id.position,
        id,
        var_type,
        value: match initial {
            Some(v) => Some(
                Box::new(
                    Tree::Initial { position: v.position(), child: Box::new(v), r_type: var_type },
                ),
            ),
            None => None,
        },
    }
}

/// The end of the declaration of a variable: the name is declared in
/// the innermost scope, if it can be.
pub open spec fn declare_variable(
    s: ParserState,
    id: TokenView,
    var_type: Type,
    initial: Option<Tree>,
) -> Read<Tree> {
    if s.scopes.len() > 0 && !s.declares(id.lexeme) {
        done(
            declaration_tree(id, var_type, initial),
            s.declared(variable(id.lexeme, var_type, id.position)),
        )
    } else {
        failed(s, Parser::cannot_declare(s, id.lexeme))
    }
}

/// The new value of an assignment to `target` and its `;`, behind the
/// `:=`, which is the current token. The value must be of the type of
/// `target`. The assignment stands at `position`.
#[verifier::opaque]
pub open spec fn read_new_value(s: ParserState, position: Position, target: Value) -> Read<Tree> {
    let v = read_level(5, s);
    match v.result {
        Err(e) => Read { result: Err(e), state: v.state },
        Ok(value) => if v.state.current.kind != Kind::Semicolon {
            unexpected(v.state, Kind::Semicolon)
        } else if value.r_type != target.r_type {
            failed(v.state, mismatch_message("var assignment"@, target.r_type, value.r_type))
        } else {
            done(
                Tree::VarReassignment {
                    position,
                    place: Box::new(target.tree),
                    new_value: Box::new(value.tree),
                },
                v.state,
            )
        },
    }
}

/// An assignment to an element of the array `id`, whose elements are
/// of the base type `base`, behind the `[`, which is the current token:
/// the index, which must be an `Int`, `]`, `:=` and the new value.
#[verifier::opaque]
pub open spec fn read_element_assignment(s: ParserState, id: TokenView, base: SimpleType) -> Read<
    Tree,
> {
    let index = read_level(5, s);
    match index.result {
        Err(e) => Read { result: Err(e), state: index.state },
        Ok(v) => {
            let e = index.state;
            if e.current.kind != Kind::RightSquare {
                unexpected(e, Kind::RightSquare)
            } else if base == SimpleType::Void {
                failed(e, "Arrays of void have no elements"@)
            } else if v.r_type != integer() {
                failed(e, mismatch_message("array index"@, integer(), v.r_type))
            } else if e.advanced().current.kind != Kind::ColonEqual {
                unexpected(e.advanced(), Kind::ColonEqual)
            } else {
                read_new_value(
                    e.advanced(),
                    id.position,
                    element_value(Type::Simple(base), id, v.tree),
                )
            }
        },
    }
}

/// An assignment, from the name that is assigned to, which is the
/// current token, up to the `;`.
#[verifier::opaque]
pub open spec fn read_var_assignment(s: ParserState) -> Read<Tree> {
    match resolve(s.scopes, s.current.lexeme) {
        None => failed(s, "Use of undeclared variable "@ + s.current.lexeme),
        Some(sym) => if !sym.entry.s_type.is_storage() {
            failed(
                s,
                "Symbol alread exists and is associated either to a funciton or to a procedure"@,
            )
        } else {
            let a = s.advanced();
            if sym.entry.s_type == SymbolType::Arr && a.current.kind == Kind::LeftSquare {
                read_element_assignment(a, s.current, sym.entry.r_type.base())
            } else if a.current.kind == Kind::ColonEqual {
                read_new_value(
                    a,
                    s.current.position,
                    variable_value(sym.entry.r_type, s.current, sym.entry.s_type),
                )
            } else if sym.entry.s_type == SymbolType::Arr {
                failed(
                    a,
                    "Expected either array referenceing or array redeclaration, found: "@
                        + a.current.kind.text(),
                )
            } else {
                unexpected(a, Kind::ColonEqual)
            }
        },
    }
}

/// A print statement, behind `writeln`, which is the current token, up
/// to its `;`.
#[verifier::opaque]
pub open spec fn read_print(s: ParserState) -> Read<Tree> {
    let a = s.advanced();
    if a.current.kind != Kind::LeftParen {
        unexpected(a, Kind::LeftParen)
    } else {
        let v = read_level(5, a);
        match v.result {
            Err(e) => Read { result: Err(e), state: v.state },
            Ok(value) => {
                let b = v.state.advanced();
                if v.state.current.kind != Kind::RightParen {
                    unexpected(v.state, Kind::RightParen)
                } else if b.current.kind != Kind::Semicolon {
                    unexpected(b, Kind::Semicolon)
                } else if value.r_type == void() {
                    failed(b, "Unable to print a void expression"@)
                } else {
                    done(
                        Tree::Print { position: s.current.position, to_print: Box::new(value.tree) },
                        b,
                    )
                }
            },
        }
    }
}

/// A read statement, behind `read`, which is the current token, up to
/// its `;`.
#[verifier::opaque]
pub open spec fn read_read(s: ParserState) -> Read<Tree> {
    let a = s.advanced();
    let b = a.advanced();
    if a.current.kind != Kind::LeftParen {
        unexpected(a, Kind::LeftParen)
    } else if b.current.kind != Kind::Identifier {
        unexpected(b, Kind::Identifier)
    } else {
        let t = read_symbol(b);
        match t.result {
            Err(e) => Read { result: Err(e), state: t.state },
            Ok(target) => {
                let c = t.state.advanced();
                let d = c.advanced();
                if c.current.kind != Kind::RightParen {
                    unexpected(c, Kind::RightParen)
                } else if d.current.kind != Kind::Semicolon {
                    unexpected(d, Kind::Semicolon)
                } else if !target.place {
                    failed(d, "Trying to read into an unknown variable"@)
                } else if target.r_type is Array {
                    failed(d, "Trying to read into whole array"@)
                } else if target.r_type == void() {
                    failed(d, "Trying to read into void expression"@)
                } else {
                    done(
                        Tree::Read { position: s.current.position, place: Box::new(target.tree) },
                        d,
                    )
                }
            },
        }
    }
}

/// An assert statement, behind `assert`, which is the current token,
/// up to its `;`.
#[verifier::opaque]
pub open spec fn read_assert(s: ParserState) -> Read<Tree> {
    let a = s.advanced();
    if a.current.kind != Kind::LeftParen {
        unexpected(a, Kind::LeftParen)
    } else {
        let v = read_level(5, a);
        match v.result {
            Err(e) => Read { result: Err(e), state: v.state },
            Ok(value) => {
                let b = v.state.advanced();
                if v.state.current.kind != Kind::RightParen {
                    unexpected(v.state, Kind::RightParen)
                } else if b.current.kind != Kind::Semicolon {
                    unexpected(b, Kind::Semicolon)
                } else if value.r_type != boolean() {
                    failed(b, not_boolean_message("operand of assert"@, value.r_type))
                } else {
                    done(
                        Tree::Assert { position: b.current.position, expr: Box::new(value.tree) },
                        b,
                    )
                }
            },
        }
    }
}

/// A return statement, behind `return`, which is the current token,
/// up to its `;`.
#[verifier::opaque]
pub open spec fn read_return(s: ParserState) -> Read<Tree> {
    let a = s.advanced();
    if a.current.kind == Kind::Semicolon {
        done(Tree::Return { token: s.current, value: None }, a)
    } else {
        let v = read_level(5, a.went_back());
        match v.result {
            Err(e) => Read { result: Err(e), state: v.state },
            Ok(value) => if v.state.current.kind != Kind::Semicolon {
                unexpected(v.state, Kind::Semicolon)
            } else {
                done(
                    Tree::Return { token: s.current, value: Some(Box::new(value.tree)) },
                    v.state,
                )
            },
        }
    }
}

/// The guard of an `if` or of a `while`, and the keyword that follows
/// it. A guard that is no `Bool` is an error, whatever follows it.
#[verifier::opaque]
pub open spec fn read_guard(s: ParserState, place: Seq<char>, follows: Kind) -> Read<Value> {
    let v = read_level(5, s);
    match v.result {
        Err(_) => v,
        Ok(value) => if value.r_type != boolean() {
            failed(v.state, not_boolean_message(place, value.r_type))
        } else if v.state.current.kind != follows {
            unexpected(v.state, follows)
        } else {
            v
        },
    }
}

/// A call of the procedure that the current token names, up to the
/// `;` behind it.
#[verifier::opaque]
pub open spec fn read_procedure_call(s: ParserState) -> Read<Tree> {
    match resolve(s.scopes, s.current.lexeme) {
        None => failed(s, "Unknown procedure "@ + s.current.lexeme),
        Some(f) => if f.entry.s_type != SymbolType::Procedure {
            failed(s, s.current.lexeme + " exists, but is not a procedure"@)
        } else {
            let a = s.advanced();
            if a.current.kind != Kind::LeftParen {
                unexpected(a, Kind::LeftParen)
            } else {
                let arguments = read_call_parameters(a);
                match arguments.result {
                    Err(e) => Read { result: Err(e), state: arguments.state },
                    Ok(values) => {
                        let e = arguments.state;
                        let types = value_types(values);
                        match f.params {
                            None => failed(e, "Initialized function with empty arg table"@),
                            Some(params) => if !types_fit(params, types) {
                                failed(e, call_error(params, types))
                            } else if e.current.kind != Kind::RightParen {
                                unexpected(e, Kind::RightParen)
                            } else if e.advanced().current.kind != Kind::Semicolon {
                                unexpected(e.advanced(), Kind::Semicolon)
                            } else {
                                done(
                                    Tree::ProcedureCall {
                                        position: s.current.position,
                                        args: paired(params, values),
                                        target: f.entry.name,
                                    },
                                    e.advanced(),
                                )
                            },
                        }
                    },
                }
            }
        },
    }
}

/// A call of a function as a statement, from its name, which is the
/// current token, up to the `;` behind it.
#[verifier::opaque]
pub open spec fn read_call_statement(s: ParserState) -> Read<Tree> {
    let call = read_function_call(s);
    match call.result {
        Err(e) => Read { result: Err(e), state: call.state },
        Ok(v) => if call.state.advanced().current.kind != Kind::Semicolon {
            unexpected(call.state.advanced(), Kind::Semicolon)
        } else {
            done(v.tree, call.state.advanced())
        },
    }
}

/// What the declaration of a parameter says.
pub open spec fn parameter(id: TokenView, by_reference: bool, r_type: Type) -> Declared {
    Declared {
        entry: Entry {
            name: id.lexeme,
            s_type: if r_type is Array {
                SymbolType::Arr
            } else if by_reference {
                SymbolType::VarParam
            } else {
                SymbolType::Param
            },
            r_type,
            position: id.position,
        },
        params: None,
    }
}

/// The rest of a parameter behind its name, which is the current
/// token: `:`, the type, and the `,` or `)` behind it.
#[verifier::opaque]
pub open spec fn read_param_type(s: ParserState, by_reference: bool) -> Read<Declared> {
    let a = s.advanced();
    if a.current.kind != Kind::Colon {
        unexpected(a, Kind::Colon)
    } else {
        let t = read_type(a);
        match t.result {
            Err(e) => Read { result: Err(e), state: t.state },
            Ok(r_type) => {
                let b = t.state.advanced();
                if b.current.kind == Kind::Comma || b.current.kind == Kind::RightParen {
                    done(parameter(s.current, by_reference, r_type), b)
                } else {
                    unexpected(b, Kind::RightParen)
                }
            },
        }
    }
}

/// One parameter of a declaration, which begins with the next token.
#[verifier::opaque]
pub open spec fn read_single_param(s: ParserState) -> Read<Declared> {
    let a = s.advanced();
    if a.current.kind == Kind::Var {
        if a.advanced().current.kind != Kind::Identifier {
            unexpected(a.advanced(), Kind::Identifier)
        } else {
            read_param_type(a.advanced(), true)
        }
    } else if a.current.kind == Kind::Identifier {
        read_param_type(a, false)
    } else {
        failed(a, "Expected a param declaration, found "@ + a.current.kind.text())
    }
}

/// The parameters behind those of `before`, up to the `)`. No two
/// parameters have the same name.
#[verifier::opaque]
pub open spec fn read_more_params(s: ParserState, before: Seq<Declared>) -> Read<Seq<Declared>>
    decreases s.fuel(),
{
    let p = read_single_param(s);
    match p.result {
        Err(e) => Read { result: Err(e), state: p.state },
        Ok(d) => match declared_for(before, d.entry.name) {
            Some(first) => failed(p.state, redeclared_message(d.entry.name, first.entry.position)),
            None => if p.state.current.kind == Kind::RightParen {
                done(before.push(d), p.state)
            } else if p.state.fuel() < s.fuel() {
                read_more_params(p.state, before.push(d))
            } else {
                failed(p.state, Seq::empty())
            },
        },
    }
}

/// The parameters of a declaration, from the `(`, which is the current
/// token, to the `)`.
#[verifier::opaque]
pub open spec fn read_parameters(s: ParserState) -> Read<Seq<Declared>> {
    let a = s.advanced();
    if a.current.kind == Kind::RightParen {
        done(Seq::empty(), a)
    } else {
        read_more_params(a.went_back(), Seq::empty())
    }
}

/// The signature of a function or procedure.
pub ghost struct Signature {
    pub id: TokenView,
    pub params: Seq<Declared>,
    pub r_type: Type,
}

/// The signature of a function or of a procedure, from its name to the
/// `begin` of its body.
#[verifier::opaque]
pub open spec fn read_signature(s: ParserState, with_result: bool) -> Read<Signature> {
    let a = s.advanced();
    let b = a.advanced();
    if a.current.kind != Kind::Identifier {
        unexpected(a, Kind::Identifier)
    } else if b.current.kind != Kind::LeftParen {
        unexpected(b, Kind::LeftParen)
    } else {
        let ps = read_parameters(b);
        match ps.result {
            Err(e) => Read { result: Err(e), state: ps.state },
            Ok(params) => if with_result {
                let c = ps.state.advanced();
                if c.current.kind != Kind::Colon {
                    unexpected(c, Kind::Colon)
                } else {
                    let t = read_type(c);
                    match t.result {
                        Err(e) => Read { result: Err(e), state: t.state },
                        Ok(r_type) => read_signature_end(
                            t.state,
                            Signature { id: a.current, params, r_type },
                        ),
                    }
                }
            } else {
                read_signature_end(ps.state, Signature { id: a.current, params, r_type: void() })
            },
        }
    }
}

/// The end of a signature: `;` and `begin`. It gives nothing but the
/// error, if there is one.
#[verifier::opaque]
pub open spec fn read_begin(s: ParserState) -> Read<()> {
    let a = s.advanced();
    let b = a.advanced();
    if a.current.kind != Kind::Semicolon {
        unexpected(a, Kind::Semicolon)
    } else if b.current.kind != Kind::Begin {
        unexpected(b, Kind::Begin)
    } else {
        done((), b)
    }
}

/// The end of a signature: `;` and `begin`.
#[verifier::opaque]
pub open spec fn read_signature_end(s: ParserState, signature: Signature) -> Read<Signature> {
    let end = read_begin(s);
    match end.result {
        Ok(_) => done(signature, end.state),
        Err(e) => Read { result: Err(e), state: end.state },
    }
}

/// The entries of declarations.
pub open spec fn entries_of(params: Seq<Declared>) -> Seq<Entry> {
    Seq::new(params.len(), |i: int| params[i].entry)
}

/// What the declaration of a function or procedure says.
pub open spec fn routine(signature: Signature, role: SymbolType) -> Declared {
    Declared {
        entry: Entry {
            name: signature.id.lexeme,
            s_type: role,
            r_type: signature.r_type,
            position: signature.id.position,
        },
        params: Some(entries_of(signature.params)),
    }
}

/// The state when a scope is opened that holds `seed`.
pub open spec fn entered(s: ParserState, seed: Seq<Declared>) -> ParserState {
    ParserState { scopes: s.scopes.push(seed), ..s }
}

/// A block that is read: the errors met and the statements read in it
/// so far.
pub ghost struct Open {
    pub errors: Seq<SyntaxErrorView>,
    pub statements: Seq<Tree>,
}

/// The end of a block that began at `position`: its scope is closed;
/// it is handed out with the symbols of its scope where no error was
/// met in it, else its errors are, and the block is noted as read to
/// its end.
pub open spec fn close_block(s: ParserState, position: Position, block: Open) -> Outcome<Tree> {
    let closed = ParserState {
        scopes: s.scopes.drop_last(),
        closed: block.errors.len() > 0 || s.closed,
        ..s
    };
    if block.errors.len() == 0 {
        fine(
            Tree::Block {
                position,
                context: s.scopes.last(),
                statements: block.statements,
            },
            closed,
        )
    } else {
        Outcome { result: Err(block.errors), state: closed }
    }
}

/// The state in which a block goes on after a statement that failed:
/// after a block nothing is skipped; else tokens are skipped up to a
/// boundary, which is given back unless it is a `;`.
pub open spec fn recovered(s: ParserState) -> ParserState {
    if s.closed {
        s
    } else if s.synced().current.kind != Kind::Semicolon {
        s.synced().went_back()
    } else {
        s.synced()
    }
}

/// A statement that begins with a name, which is the current token: a
/// call of a function or of a procedure, or an assignment. A name that
/// no scope declares is an error.
#[verifier::opaque]
pub open spec fn read_named_statement(s: ParserState) -> Read<Tree> {
    match resolve(s.scopes, s.current.lexeme) {
        None => failed(s, "Symbol not found: "@ + s.current.lexeme),
        Some(sym) => if sym.entry.s_type == SymbolType::Function {
            read_call_statement(s)
        } else if sym.entry.s_type == SymbolType::Procedure {
            read_procedure_call(s)
        } else {
            read_var_assignment(s)
        },
    }
}

/// Whether a token of this kind begins a statement that has no block
/// in it.
pub open spec fn begins_simple(k: Kind) -> bool {
    k == Kind::Var || k == Kind::Identifier || k == Kind::Read || k == Kind::Print || k
        == Kind::Assert || k == Kind::Return
}

/// A statement that has no block in it, from its first token, which is
/// the current token.
#[verifier::opaque]
pub open spec fn read_simple(s: ParserState) -> Read<Tree> {
    let k = s.current.kind;
    if k == Kind::Var {
        read_var_declaration(s)
    } else if k == Kind::Identifier {
        read_named_statement(s)
    } else if k == Kind::Read {
        read_read(s)
    } else if k == Kind::Print {
        read_print(s)
    } else if k == Kind::Assert {
        read_assert(s)
    } else {
        read_return(s)
    }
}

/// A statement, which begins with the next token. At the end of the
/// source it is the node for it.
#[verifier::opaque]
pub open spec fn read_statement(s: ParserState) -> Outcome<Tree>
    decreases s.fuel(), 20nat,
{
    let a = (ParserState { closed: false, ..s }).advanced();
    let k = a.current.kind;
    if k == Kind::Eof {
        fine(Tree::Eof { eof: a.current }, a)
    } else if a.fuel() >= s.fuel() {
        broken(a, Seq::empty())
    } else if begins_simple(k) {
        many(read_simple(a))
    } else if k == Kind::While {
        read_while(a)
    } else if k == Kind::If {
        read_if(a)
    } else if k == Kind::Begin {
        read_block_with(a, Seq::empty())
    } else {
        broken(a, "Unexpected token: "@ + k.text())
    }
}

/// A while loop, behind `while`, which is the current token, up to the
/// `end` of its body.
#[verifier::opaque]
pub open spec fn read_while(s: ParserState) -> Outcome<Tree>
    decreases s.fuel(), 15nat,
{
    let g = read_guard(s, "while loop guard"@, Kind::Do);
    match g.result {
        Err(e) => Outcome { result: Err(seq![e]), state: g.state },
        Ok(guard) => {
            let a = g.state.advanced();
            if a.current.kind != Kind::Begin {
                many(unexpected(a, Kind::Begin))
            } else if a.fuel() >= s.fuel() {
                broken(a, Seq::empty())
            } else {
                let body = read_block_with(a, Seq::empty());
                match body.result {
                    Err(_) => body,
                    Ok(block) => fine(
                        Tree::While {
                            position: s.current.position,
                            guard: Box::new(guard.tree),
                            block: Box::new(block),
                        },
                        body.state,
                    ),
                }
            }
        },
    }
}

/// An if statement, behind `if`, which is the current token, up to the
/// end of its last branch.
#[verifier::opaque]
pub open spec fn read_if(s: ParserState) -> Outcome<Tree>
    decreases s.fuel(), 15nat,
{
    let g = read_guard(s, "if guard"@, Kind::Then);
    match g.result {
        Err(e) => Outcome { result: Err(seq![e]), state: g.state },
        Ok(guard) => if g.state.fuel() >= s.fuel() {
            broken(g.state, Seq::empty())
        } else {
            let first = read_statement(g.state);
            match first.result {
                Err(_) => first,
                Ok(then_stmt) => {
                    let a = first.state.advanced();
                    if a.current.kind != Kind::Else {
                        fine(
                            Tree::If {
                                position: s.current.position,
                                guard: Box::new(guard.tree),
                                then_stmt: Box::new(then_stmt),
                                else_stmt: None,
                            },
                            a.went_back(),
                        )
                    } else if a.fuel() >= s.fuel() {
                        broken(a, Seq::empty())
                    } else {
                        let other = read_statement(a);
                        match other.result {
                            Err(_) => other,
                            Ok(else_stmt) => fine(
                                Tree::If {
                                    position: s.current.position,
                                    guard: Box::new(guard.tree),
                                    then_stmt: Box::new(then_stmt),
                                    else_stmt: Some(
                                        Box::new(
                                            Tree::Else {
                                                position: a.current.position,
                                                block: Box::new(else_stmt),
                                            },
                                        ),
                                    ),
                                },
                                other.state,
                            ),
                        }
                    }
                },
            }
        },
    }
}

/// A block in a scope of its own that holds `seed` at first, behind the
/// `begin`, which is the current token, up to its `end`.
#[verifier::opaque]
pub open spec fn read_block_with(s: ParserState, seed: Seq<Declared>) -> Outcome<Tree>
    decreases s.fuel(), 31nat,
{
    read_block_rest(
        entered(s, seed),
        s.current.position,
        Open { errors: Seq::empty(), statements: Seq::empty() },
    )
}

/// Where a block stands after one step: the state, the block, and
/// whether the block ends here.
pub ghost struct Step {
    pub state: ParserState,
    pub block: Open,
    pub stop: bool,
}

/// One step of a block: at `end` and at the end of the source the
/// block ends; at `function` and `procedure` it ends with an error, and
/// the token is given back; else a statement is read, and after one
/// that fails the block goes on where it has recovered. The block also
/// ends where a step has read nothing.
#[verifier::opaque]
pub open spec fn block_step(s: ParserState, block: Open) -> Step
    decreases s.fuel(), 29nat,
{
    let a = s.advanced();
    let k = a.current.kind;
    if k == Kind::End || k == Kind::Eof {
        Step { state: a, block, stop: true }
    } else if k == Kind::Function || k == Kind::Procedure {
        Step {
            state: a.went_back(),
            block: Open {
                errors: block.errors.push(a.error(unexpected_message(Kind::End, k))),
                ..block
            },
            stop: true,
        }
    } else if a.went_back().fuel() > s.fuel() {
        Step { state: a.went_back(), block, stop: true }
    } else {
        let statement = read_statement(a.went_back());
        let (now, next) = match statement.result {
            Ok(t) => (Open { statements: block.statements.push(t), ..block }, statement.state),
            Err(es) => (Open { errors: block.errors + es, ..block }, recovered(statement.state)),
        };
        Step { state: next, block: now, stop: next.fuel() >= s.fuel() }
    }
}

/// The rest of a block that began at `position`.
#[verifier::opaque]
pub open spec fn read_block_rest(s: ParserState, position: Position, block: Open) -> Outcome<Tree>
    decreases s.fuel(), 30nat,
{
    let step = block_step(s, block);
    if step.stop || step.state.fuel() >= s.fuel() {
        close_block(step.state, position, step.block)
    } else {
        read_block_rest(step.state, position, step.block)
    }
}

/// The body of a function or procedure whose signature was read: the
/// routine is declared in the innermost scope, if it can be, and its
/// body is a block whose scope holds the parameters.
#[verifier::opaque]
pub open spec fn read_body(s: ParserState, signature: Signature, role: SymbolType) -> Outcome<Tree> {
    if s.scopes.len() > 0 && !s.declares(signature.id.lexeme) {
        let body = read_block_with(s.declared(routine(signature, role)), signature.params);
        match body.result {
            Err(_) => body,
            Ok(block) => fine(
                if role == SymbolType::Function {
                    Tree::FunctionDecl {
                        name: signature.id.lexeme,
                        position: signature.id.position,
                        params: signature.params,
                        block: Box::new(block),
                        r_type: signature.r_type,
                    }
                } else {
                    Tree::ProcedureDecl {
                        name: signature.id.lexeme,
                        position: signature.id.position,
                        params: signature.params,
                        block: Box::new(block),
                    }
                },
                body.state,
            ),
        }
    } else {
        broken(s, Parser::cannot_declare(s, signature.id.lexeme))
    }
}

/// The declaration of a function, behind `function`, which is the
/// current token, up to the `end` of its body.
#[verifier::opaque]
pub open spec fn read_function(s: ParserState) -> Outcome<Tree> {
    let signature = read_signature(s, true);
    match signature.result {
        Err(e) => Outcome { result: Err(seq![e]), state: signature.state },
        Ok(sig) => read_body(signature.state, sig, SymbolType::Function),
    }
}

/// The declaration of a procedure, behind `procedure`, which is the
/// current token, up to the `end` of its body.
#[verifier::opaque]
pub open spec fn read_procedure(s: ParserState) -> Outcome<Tree> {
    let signature = read_signature(s, false);
    match signature.result {
        Err(e) => Outcome { result: Err(seq![e]), state: signature.state },
        Ok(sig) => read_body(signature.state, sig, SymbolType::Procedure),
    }
}

/// What stands at the top level of a program, which begins with the
/// next token.
#[verifier::opaque]
pub open spec fn read_global_statement(s: ParserState) -> Outcome<Tree> {
    let a = (ParserState { closed: false, ..s }).advanced();
    let k = a.current.kind;
    if k == Kind::Function {
        read_function(a)
    } else if k == Kind::Procedure {
        read_procedure(a)
    } else if k == Kind::Begin {
        read_block_with(a, Seq::empty())
    } else if k == Kind::Program {
        many(read_program_name(a))
    } else if k == Kind::Eof {
        fine(Tree::Eof { eof: a.current }, a)
    } else {
        let statement = read_statement(a.went_back());
        match statement.result {
            Err(_) => statement,
            Ok(t) => broken(
                statement.state,
                "Expected either function or procedure initialization, found "@ + t.text(),
            ),
        }
    }
}

/// The state in which a program goes on after a global statement that
/// failed: after a block nothing is skipped; else tokens are skipped
/// up to a boundary, which is given back where it begins a global
/// statement.
pub open spec fn resumed(s: ParserState) -> ParserState {
    if s.closed {
        s
    } else {
        s.resynced()
    }
}

/// What a parse has found so far: the name of the program and the
/// main block, if they were met, and the functions and procedures.
pub ghost struct Found {
    pub name: Option<TokenView>,
    pub functions: Seq<Tree>,
    pub procedures: Seq<Tree>,
    pub main: Option<Tree>,
}

/// What a parse has found before it has read anything.
pub open spec fn nothing() -> Found {
    Found { name: None, functions: Seq::empty(), procedures: Seq::empty(), main: None }
}

/// The state with errors added to those recorded.
pub open spec fn recorded(s: ParserState, errors: Seq<SyntaxErrorView>) -> ParserState {
    ParserState { errors: s.errors + errors, ..s }
}

/// The state and what was found after one global statement more.
#[verifier::opaque]
pub open spec fn program_step(s: ParserState, found: Found) -> (ParserState, Found) {
    let g = read_global_statement(s);
    match g.result {
        Err(es) => (resumed(recorded(g.state, es)), found),
        Ok(t) => match t {
            Tree::ProgramName { id } => if found.name is Some {
                (
                    recorded(g.state, seq![g.state.error("Program name declared twice"@)]),
                    found,
                )
            } else {
                (g.state, Found { name: Some(id), ..found })
            },
            Tree::Block { .. } => if found.main is Some {
                (recorded(g.state, seq![g.state.error("Main block declared twice"@)]), found)
            } else {
                (g.state, Found { main: Some(t), ..found })
            },
            Tree::FunctionDecl { .. } => (
                g.state,
                Found { functions: found.functions.push(t), ..found },
            ),
            Tree::ProcedureDecl { .. } => (
                g.state,
                Found { procedures: found.procedures.push(t), ..found },
            ),
            Tree::Eof { .. } => (g.state, found),
            _ => (
                recorded(
                    g.state,
                    seq![
                        g.state.error(
                            "Found an "@ + t.text() + " in global scope wich makes no sense"@,
                        ),
                    ],
                ),
                found,
            ),
        },
    }
}

/// The state and what was found when the global statements of a
/// program were read: up to the end of the source.
#[verifier::opaque]
pub open spec fn read_globals(s: ParserState, found: Found) -> (ParserState, Found)
    decreases s.fuel(),
{
    if s.current.kind == Kind::Eof {
        (s, found)
    } else {
        let g = read_global_statement(s);
        let (next, now) = program_step(s, found);
        if (g.result matches Ok(t) && t is Eof) || next.fuel() >= s.fuel() {
            (next, now)
        } else {
            read_globals(next, now)
        }
    }
}

/// The one error of a program that lacks a part.
pub open spec fn incomplete(source: Seq<char>, description: Seq<char>) -> Seq<SyntaxErrorView> {
    seq![
        SyntaxErrorView {
            position: Position { char_number: 0, line: 0, col: 0 },
            raw_line: line_of(source, 0),
            description,
        },
    ]
}

/// The result of a program whose global statements were read: if any
/// error was recorded, all the errors recorded; else a program needs
/// its name and its main block.
pub open spec fn program_result(end: ParserState, found: Found) -> Result<
    Tree,
    Seq<SyntaxErrorView>,
> {
    if end.errors.len() > 0 {
        Err(end.errors)
    } else {
        match found.name {
            None => Err(incomplete(end.source, "Found no program name in first line"@)),
            Some(name) => match found.main {
                None => Err(incomplete(end.source, "Main block is nowhere to be found"@)),
                Some(main) => Ok(
                    Tree::Program {
                        program_name: name,
                        functions: found.functions,
                        procedures: found.procedures,
                        main_block: Box::new(main),
                    },
                ),
            },
        }
    }
}

/// A program: its global statements up to the end of the source, and
/// the result that they give.
pub open spec fn read_program(s: ParserState) -> Outcome<Tree> {
    let (end, found) = read_globals(s, nothing());
    Outcome { result: program_result(end, found), state: end }
}

/// The state of a parser that is about to read `source`: nothing was
/// read, and the one scope is the global one, which is empty.
pub open spec fn begun(source: Seq<char>) -> ParserState {
    ParserState { scopes: seq![Seq::<Declared>::empty()], ..ParserState::initial(source) }
}

/// What a parser makes of a whole source text: the tree of the
/// program, or all the errors in it.
pub open spec fn read_source(source: Seq<char>) -> Result<Tree, Seq<SyntaxErrorView>> {
    read_program(begun(source)).result
}

} // verus!
