//! What holds of the grammar on every state of the parser.

use crate::base::ast::{boolean, BinaryExprType};
use crate::base::errors::SyntaxErrorView;
use crate::base::symbol_table::{declared_for, Declared, SymbolType};
use crate::base::token::{Kind, TokenView};
use crate::base::types::{SimpleType, Type};
use crate::base::tree::{Constant, Tree};
use crate::parser::grammar::{
    call_value, done, failed, level_operator, paired, read_binary, read_bracket,
    read_call_parameters, read_elements, read_function_call, read_group, read_level, read_named,
    read_negation, read_rest, read_symbol, read_unary, value_types, Value,
};
use crate::scanner::position::Position;
use crate::parser::rules::{
    call_error, element_error, not_boolean_message, operands_message, types_fit,
};
use crate::parser::state::{resolve, unknown_symbol_message, ParserState};
use crate::parser::syntax::{
    declaration_tree, declare_variable, entered, read_block_with, read_guard, read_if,
    read_statement, read_while,
};
use crate::parser::var_declaration::variable;
use crate::parser::redeclared_message;
use vstd::prelude::*;

verus! {

/// Declaring a name that the innermost scope declares already is an
/// error, and the error gives the place of the declaration that the
/// scope holds for the name.
pub proof fn lemma_redeclaration_is_an_error(
    s: ParserState,
    id: TokenView,
    var_type: Type,
    initial: Option<Tree>,
)
    requires
        s.scopes.len() > 0,
        declared_for(s.scopes.last(), id.lexeme) is Some,
    ensures
        declare_variable(s, id, var_type, initial) == failed::<Tree>(
            s,
            redeclared_message(
                id.lexeme,
                declared_for(s.scopes.last(), id.lexeme)->0.entry.position,
            ),
        ),
{
}

/// Declaring a name that the innermost scope does not declare always
/// succeeds, whatever the outer scopes declare: the name is added to
/// the innermost scope, and the outer scopes stay as they are.
pub proof fn lemma_declaration_succeeds(
    s: ParserState,
    id: TokenView,
    var_type: Type,
    initial: Option<Tree>,
)
    requires
        s.scopes.len() > 0,
        declared_for(s.scopes.last(), id.lexeme) is None,
    ensures
        declare_variable(s, id, var_type, initial) == done(
            declaration_tree(id, var_type, initial),
            s.declared(variable(id.lexeme, var_type, id.position)),
        ),
        s.declared(variable(id.lexeme, var_type, id.position)).scopes.drop_last()
            == s.scopes.drop_last(),
        s.declared(variable(id.lexeme, var_type, id.position)).scopes.last() == s.scopes.last().push(
            variable(id.lexeme, var_type, id.position),
        ),
{
    let after = s.declared(variable(id.lexeme, var_type, id.position));
    assert(after.scopes.drop_last() =~= s.scopes.drop_last());
}

/// In a scope that was just opened every name can be declared: a name
/// of an outer scope is shadowed, never an error.
pub proof fn lemma_shadowing_is_no_error(
    s: ParserState,
    id: TokenView,
    var_type: Type,
    initial: Option<Tree>,
)
    ensures
        declare_variable(entered(s, Seq::empty()), id, var_type, initial).result is Ok,
{
    let inner = entered(s, Seq::empty());
    assert(inner.scopes.last() == Seq::<Declared>::empty());
}

/// A binary expression whose operand types are no legal combination
/// for its operator is an error that names the operator and both
/// types; a legal combination gives the type of the table.
pub proof fn lemma_operands_are_checked(op: TokenView, left: Value, right: Value, s: ParserState)
    requires
        BinaryExprType::of_kind(op.kind) is Some,
    ensures
        match BinaryExprType::of_kind(op.kind)->0.result(left.r_type, right.r_type) {
            Some(t) => read_binary(op, left, right, s).result matches Ok(v) && v.r_type == t,
            None => read_binary(op, left, right, s) == failed::<Value>(
                s,
                operands_message(BinaryExprType::of_kind(op.kind)->0, left.r_type, right.r_type),
            ),
        },
{
}

/// An element of an array literal that is no literal of a base type,
/// or is of another base type than the elements before it, ends the
/// array literal with an error.
pub proof fn lemma_mixed_array_is_an_error(
    s: ParserState,
    base: Option<SimpleType>,
    begin: Position,
    items: Seq<Constant>,
)
    requires
        read_unary(s).result matches Ok(v) && !(v.literal && v.r_type is Simple && (base matches Some(
            b,
        ) ==> b == v.r_type.base())),
    ensures
        read_elements(s, base, begin, items) == failed::<Value>(
            read_unary(s).state,
            element_error(
                read_unary(s).result->Ok_0.literal,
                read_unary(s).result->Ok_0.r_type,
                read_unary(s).result->Ok_0.text,
            ),
        ),
{
    reveal_with_fuel(read_elements, 1);
    reveal_with_fuel(read_unary, 1);
}

/// A call of a function whose arguments fit its parameters, and which
/// is closed by `)`, always succeeds, and its type is the type that the
/// function returns; one whose arguments do not fit is an error.
pub proof fn lemma_calls_are_checked(s: ParserState)
    requires
        resolve(s.scopes, s.current.lexeme) matches Some(f) && f.entry.s_type
            == SymbolType::Function && f.params is Some,
        s.advanced().current.kind == Kind::LeftParen,
        s.advanced().fuel() < s.fuel(),
        read_call_parameters(s.advanced()).result is Ok,
    ensures
        ({
            let f = resolve(s.scopes, s.current.lexeme)->0;
            let arguments = read_call_parameters(s.advanced());
            let types = value_types(arguments.result->Ok_0);
            if !types_fit(f.params->0, types) {
                read_function_call(s) == failed::<Value>(
                    arguments.state,
                    call_error(f.params->0, types),
                )
            } else if arguments.state.current.kind == Kind::RightParen {
                read_function_call(s) == done(
                    call_value(
                        f.entry.r_type,
                        s.current.position,
                        f.entry.name,
                        paired(f.params->0, arguments.result->Ok_0),
                    ),
                    arguments.state,
                )
            } else {
                read_function_call(s).result is Err
            }
        }),
{
    reveal_with_fuel(read_function_call, 1);
    reveal_with_fuel(read_call_parameters, 1);
}

/// A guard that is no `Bool` is an error at the end of the guard,
/// whatever follows it.
pub proof fn lemma_guard_must_be_boolean(s: ParserState, place: Seq<char>, follows: Kind)
    requires
        read_level(5, s).result matches Ok(v) && v.r_type != boolean(),
    ensures
        read_guard(s, place, follows) == failed::<Value>(
            read_level(5, s).state,
            not_boolean_message(place, read_level(5, s).result->Ok_0.r_type),
        ),
{
    reveal(read_guard);
}

/// A `while` whose guard is no `Bool` is rejected before its body is
/// read: the parser stands at the end of the guard, and the one error
/// is that of the guard.
pub proof fn lemma_while_guard_is_checked_first(s: ParserState)
    requires
        read_level(5, s).result matches Ok(v) && v.r_type != boolean(),
    ensures
        read_while(s).state == read_level(5, s).state,
        read_while(s).result == Err::<Tree, Seq<SyntaxErrorView>>(
            seq![
                read_level(5, s).state.error(
                    not_boolean_message(
                        "while loop guard"@,
                        read_level(5, s).result->Ok_0.r_type,
                    ),
                ),
            ],
        ),
{
    lemma_guard_must_be_boolean(s, "while loop guard"@, Kind::Do);
    reveal_with_fuel(read_while, 1);
    reveal_with_fuel(read_block_with, 1);
}

/// An `if` whose guard is no `Bool` is rejected before its branches are
/// read: the parser stands at the end of the guard, and the one error
/// is that of the guard.
pub proof fn lemma_if_guard_is_checked_first(s: ParserState)
    requires
        read_level(5, s).result matches Ok(v) && v.r_type != boolean(),
    ensures
        read_if(s).state == read_level(5, s).state,
        read_if(s).result == Err::<Tree, Seq<SyntaxErrorView>>(
            seq![
                read_level(5, s).state.error(
                    not_boolean_message("if guard"@, read_level(5, s).result->Ok_0.r_type),
                ),
            ],
        ),
{
    lemma_guard_must_be_boolean(s, "if guard"@, Kind::Then);
    reveal_with_fuel(read_if, 1);
    reveal_with_fuel(read_statement, 1);
}

/// Where an expression begins with an identifier that no open scope
/// declares, the expression is exactly one error, which names the
/// identifier, at every level of precedence.
pub proof fn lemma_unknown_identifier(s: ParserState, level: nat)
    requires
        s.cursor.fits(s.source),
        s.begins_unknown(),
        level <= 5,
    ensures
        read_level(level, s) == failed::<Value>(
            s.advanced(),
            unknown_symbol_message(s.advanced().current.lexeme),
        ),
    decreases level,
{
    reveal_with_fuel(read_level, 1);
    reveal_with_fuel(read_rest, 1);
    if level > 0 {
        lemma_unknown_identifier(s, (level - 1) as nat);
    } else {
        reveal_with_fuel(read_unary, 1);
        reveal_with_fuel(read_named, 1);
        reveal_with_fuel(read_negation, 1);
        reveal_with_fuel(read_group, 1);
        reveal_with_fuel(read_bracket, 1);
        reveal_with_fuel(read_function_call, 1);
        reveal_with_fuel(read_symbol, 1);
        s.lemma_advanced();
        assert(read_named(s.advanced()) == failed::<Value>(
            s.advanced(),
            unknown_symbol_message(s.advanced().current.lexeme),
        ));
        assert(read_unary(s) == read_named(s.advanced()));
    }
}

/// Where the right operand of a binary operator begins with an
/// identifier that no open scope declares, the whole chain is exactly
/// the one error that names the identifier, whatever stands to the
/// left of the operator.
pub proof fn lemma_unknown_operand(s: ParserState, level: nat, left: Value)
    requires
        s.cursor.fits(s.source),
        s.begins_unknown(),
        1 <= level <= 5,
        level_operator(level, s.current.kind),
    ensures
        read_rest(level, s, left) == failed::<Value>(
            s.advanced(),
            unknown_symbol_message(s.advanced().current.lexeme),
        ),
{
    reveal_with_fuel(read_rest, 1);
    reveal_with_fuel(read_level, 1);
    lemma_unknown_identifier(s, (level - 1) as nat);
}

/// Where an expression in parentheses, the operand of a negation or
/// the index of an array begins with an identifier that no open scope
/// declares, it is exactly the one error that names the identifier.
pub proof fn lemma_unknown_inside(s: ParserState)
    requires
        s.cursor.fits(s.source),
        s.begins_unknown(),
    ensures
        read_group(s) == failed::<Value>(
            s.advanced(),
            unknown_symbol_message(s.advanced().current.lexeme),
        ),
        read_negation(s) == failed::<Value>(
            s.advanced(),
            unknown_symbol_message(s.advanced().current.lexeme),
        ),
{
    reveal_with_fuel(read_group, 1);
    reveal_with_fuel(read_negation, 1);
    reveal_with_fuel(read_level, 1);
    reveal_with_fuel(read_unary, 1);
    lemma_unknown_identifier(s, 5);
    lemma_unknown_identifier(s, 0);
}

} // verus!
