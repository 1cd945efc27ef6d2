//! What the grammar reads from given tokens: the trees of the simplest
//! expressions and statements, stated over the tokens that the parser
//! meets from a state on.

use crate::base::ast::{integer, void, BinaryExprType};
use crate::base::symbol_table::{declared_for, SymbolType};
use crate::base::token::Kind;
use crate::base::tree::{Constant, Tree};
use crate::base::types::Type;
use crate::parser::grammar::{
    binary_value, done, level_operator, literal_value, read_binary, read_bracket,
    read_function_call, read_group, read_level, read_named, read_negation, read_rest,
    read_symbol, read_unary, variable_value, Value,
};
use crate::parser::progress::{lemma_expression_reads_on, lemma_peeked};
use crate::parser::state::{resolve, ParserState};
use crate::parser::syntax::{
    begins_simple, block_step, declaration_tree, finish_declaration, many, read_block_with,
    read_declared_value, read_if, read_print, read_simple, read_statement, read_type,
    read_var_declaration, read_while, Open, Step,
};
use crate::parser::types::named_type;
use crate::parser::var_declaration::variable;
use crate::text::integer_literal;
use vstd::prelude::*;

verus! {

/// Whether a token of this kind is a binary operator.
pub open spec fn is_operator(k: Kind) -> bool {
    exists|level: nat| 1 <= level <= 5 && level_operator(level, k)
}

/// The level of precedence of a binary operator.
pub open spec fn level_of(k: Kind) -> nat {
    if k == Kind::And {
        5
    } else if k == Kind::Equal {
        4
    } else if k == Kind::Greater || k == Kind::GreaterEqual || k == Kind::Less || k
        == Kind::LessEqual {
        3
    } else if k == Kind::Minus || k == Kind::Plus {
        2
    } else {
        1
    }
}

/// An operator is an operator of one level only.
pub proof fn lemma_one_level(k: Kind, level: nat)
    requires
        1 <= level <= 5,
    ensures
        level_operator(level, k) ==> is_operator(k) && level_of(k) == level,
        is_operator(k) ==> level_operator(level_of(k), k) && 1 <= level_of(k) <= 5,
{
    if is_operator(k) {
        let l = choose|l: nat| 1 <= l <= 5 && level_operator(l, k);
        assert(level_operator(l, k));
    }
}

/// Where no operator of the level follows a value, the chain of the
/// level ends with it.
pub proof fn lemma_chain_ends(level: nat, s: ParserState, left: Value)
    requires
        level > 5 || !level_operator(level, s.current.kind),
    ensures
        read_rest(level, s, left) == done(left, s),
{
    reveal_with_fuel(read_rest, 1);
    reveal_with_fuel(read_level, 1);
}

/// A primary expression that no operator follows is the whole
/// expression, at every level of precedence.
pub proof fn lemma_lone_operand(level: nat, s: ParserState)
    requires
        s.cursor.fits(s.source),
        level <= 5,
        read_unary(s).result is Ok,
        !is_operator(read_unary(s).state.current.kind),
    ensures
        read_level(level, s) == read_unary(s),
    decreases level,
{
    reveal_with_fuel(read_level, 1);
    reveal_with_fuel(read_rest, 1);
    reveal_with_fuel(read_unary, 1);
    if level > 0 {
        lemma_lone_operand((level - 1) as nat, s);
        lemma_expression_reads_on(0, s);
        let first = read_unary(s);
        lemma_chain_ends(level, first.state, first.result->Ok_0);
    }
}

/// A literal that stands for an integer is a primary expression: its
/// value is the number that it writes, and it ends behind the literal.
pub proof fn lemma_integer_literal(s: ParserState)
    requires
        s.cursor.fits(s.source),
        s.advanced().current.kind == Kind::LitInt,
        integer_literal(s.advanced().current.lexeme) is Some,
    ensures
        read_unary(s) == done(
            literal_value(
                integer(),
                s.advanced().current.position,
                Constant::Int(integer_literal(s.advanced().current.lexeme)->0),
            ),
            s.advanced().advanced(),
        ),
{
    reveal_with_fuel(read_unary, 1);
    reveal_with_fuel(read_negation, 1);
    reveal_with_fuel(read_named, 1);
    reveal_with_fuel(read_group, 1);
    reveal_with_fuel(read_bracket, 1);
    s.lemma_advanced();
}

/// The name of a variable or of a parameter is a primary expression:
/// its type is the declared one, and it ends behind the name.
pub proof fn lemma_variable(s: ParserState)
    requires
        s.cursor.fits(s.source),
        s.advanced().current.kind == Kind::Identifier,
        resolve(s.scopes, s.advanced().current.lexeme) matches Some(sym) && (sym.entry.s_type
            == SymbolType::Var || sym.entry.s_type == SymbolType::Param || sym.entry.s_type
            == SymbolType::VarParam),
    ensures
        read_unary(s) == done(
            variable_value(
                resolve(s.scopes, s.advanced().current.lexeme)->0.entry.r_type,
                s.advanced().current,
                resolve(s.scopes, s.advanced().current.lexeme)->0.entry.s_type,
            ),
            s.advanced().advanced(),
        ),
{
    reveal_with_fuel(read_unary, 1);
    reveal_with_fuel(read_negation, 1);
    reveal_with_fuel(read_named, 1);
    reveal_with_fuel(read_group, 1);
    reveal_with_fuel(read_bracket, 1);
    reveal_with_fuel(read_symbol, 1);
    reveal_with_fuel(read_function_call, 1);
    s.lemma_advanced();
    let a = s.advanced();
    let sym = resolve(s.scopes, a.current.lexeme)->0;
    let value = variable_value(sym.entry.r_type, a.current, sym.entry.s_type);
    assert(read_symbol(a) == done(value, a));
    assert(read_named(a) == done(value, a.advanced()));
}

/// Two primary expressions with one operator between them, and no
/// operator behind them, are one binary expression: its operands are
/// the two, and its type is the one that the table of legal operands
/// gives.
pub proof fn lemma_one_operator(s: ParserState)
    requires
        s.cursor.fits(s.source),
        read_unary(s).result is Ok,
        is_operator(read_unary(s).state.current.kind),
        read_unary(read_unary(s).state).result is Ok,
        !is_operator(read_unary(read_unary(s).state).state.current.kind),
        BinaryExprType::of_kind(read_unary(s).state.current.kind) matches Some(op) && op.result(
            read_unary(s).result->Ok_0.r_type,
            read_unary(read_unary(s).state).result->Ok_0.r_type,
        ) is Some,
    ensures
        ({
            let left = read_unary(s);
            let right = read_unary(left.state);
            let op = BinaryExprType::of_kind(left.state.current.kind)->0;
            read_level(5, s) == done(
                binary_value(
                    op.result(left.result->Ok_0.r_type, right.result->Ok_0.r_type)->0,
                    left.state.current,
                    op,
                    left.result->Ok_0.tree,
                    right.result->Ok_0.tree,
                ),
                right.state,
            )
        }),
{
    let left = read_unary(s);
    let mid = left.state;
    let right = read_unary(mid);
    let k = mid.current.kind;
    let at = level_of(k);
    lemma_one_level(k, 1);
    lemma_expression_reads_on(0, s);
    lemma_expression_reads_on(0, mid);
    let whole = read_binary(mid.current, left.result->Ok_0, right.result->Ok_0, right.state);
    lemma_below(s, (at - 1) as nat);
    lemma_lone_operand((at - 1) as nat, mid);
    lemma_one_level(right.state.current.kind, at);
    lemma_chain_ends(at, right.state, whole.result->Ok_0);
    assert(read_level(at, s) == whole) by {
        reveal_with_fuel(read_level, 1);
        reveal_with_fuel(read_rest, 1);
        assert(read_level((at - 1) as nat, s) == left);
        assert(read_level((at - 1) as nat, mid) == right);
        assert(level_operator(at, mid.current.kind));
        assert(whole.result is Ok);
        assert(right.state.fuel() < mid.fuel());
        assert(read_rest(at, right.state, whole.result->Ok_0) == whole);
        assert(read_rest(at, mid, left.result->Ok_0) == whole);
    }
    lemma_above(s, at, 5);
}

/// Below the level of the operator that follows it, a primary
/// expression is the whole expression.
proof fn lemma_below(s: ParserState, level: nat)
    requires
        s.cursor.fits(s.source),
        read_unary(s).result is Ok,
        is_operator(read_unary(s).state.current.kind),
        level < level_of(read_unary(s).state.current.kind),
    ensures
        read_level(level, s) == read_unary(s),
    decreases level,
{
    reveal_with_fuel(read_level, 1);
    reveal_with_fuel(read_rest, 1);
    reveal_with_fuel(read_unary, 1);
    if level > 0 {
        lemma_below(s, (level - 1) as nat);
        lemma_expression_reads_on(0, s);
        let first = read_unary(s);
        lemma_one_level(first.state.current.kind, level);
        lemma_chain_ends(level, first.state, first.result->Ok_0);
    }
}

/// Above the level at which an expression ends before a token that is
/// no operator, the expression is the same.
proof fn lemma_above(s: ParserState, from: nat, level: nat)
    requires
        s.cursor.fits(s.source),
        1 <= from <= level <= 5,
        read_level(from, s).result is Ok,
        !is_operator(read_level(from, s).state.current.kind),
    ensures
        read_level(level, s) == read_level(from, s),
    decreases level,
{
    reveal_with_fuel(read_level, 1);
    reveal_with_fuel(read_rest, 1);
    if level > from {
        lemma_above(s, from, (level - 1) as nat);
        lemma_expression_reads_on((level - 1) as nat, s);
        let first = read_level((level - 1) as nat, s);
        lemma_one_level(first.state.current.kind, level);
        lemma_chain_ends(level, first.state, first.result->Ok_0);
    }
}

/// A declaration of a variable of a base type with an initial value:
/// where the value is of the declared type and the innermost scope
/// does not declare the name, the declaration is read, with its name,
/// its type and the tree of its value, and the name is declared.
pub proof fn lemma_declaration_with_a_value(s: ParserState)
    requires
        s.cursor.fits(s.source),
        s.scopes.len() > 0,
        s.advanced().current.kind == Kind::Identifier,
        s.advanced().advanced().current.kind == Kind::Colon,
        named_type(s.advanced().advanced().advanced().current.kind) is Some,
        s.advanced().advanced().advanced().advanced().current.kind == Kind::ColonEqual,
        ({
            let t = named_type(s.advanced().advanced().advanced().current.kind)->0;
            let value = read_level(5, s.advanced().advanced().advanced().advanced());
            &&& value.result matches Ok(v) && v.r_type == Type::Simple(t)
            &&& value.state.current.kind == Kind::Semicolon
        }),
        declared_for(s.scopes.last(), s.advanced().current.lexeme) is None,
    ensures
        ({
            let id = s.advanced().current;
            let t = Type::Simple(named_type(s.advanced().advanced().advanced().current.kind)->0);
            let value = read_level(5, s.advanced().advanced().advanced().advanced());
            read_var_declaration(s) == done(
                declaration_tree(id, t, Some(value.result->Ok_0.tree)),
                value.state.declared(variable(id.lexeme, t, id.position)),
            )
        }),
{
    reveal(read_var_declaration);
    reveal(read_type);
    reveal(read_declared_value);
    reveal(finish_declaration);
    let a = s.advanced();
    let b = a.advanced();
    let c = b.advanced();
    let d = c.advanced();
    s.lemma_advanced();
    a.lemma_advanced();
    b.lemma_advanced();
    c.lemma_advanced();
    lemma_expression_reads_on(5, d);
    let t = Type::Simple(named_type(c.current.kind)->0);
    assert(read_type(b) == done(t, c));
    let value = read_level(5, d);
    assert(value.state.scopes == s.scopes);
    assert(read_declared_value(c, a.current, t) == finish_declaration(
        value.state,
        a.current,
        t,
        Some(value.result->Ok_0),
    ));
}

/// A print statement: where the expression in its parentheses is read
/// and is of a type other than `Void`, the statement is read, with
/// the tree of the expression.
pub proof fn lemma_print(s: ParserState)
    requires
        s.advanced().current.kind == Kind::LeftParen,
        read_level(5, s.advanced()).result matches Ok(v) && v.r_type != void(),
        read_level(5, s.advanced()).state.current.kind == Kind::RightParen,
        read_level(5, s.advanced()).state.advanced().current.kind == Kind::Semicolon,
    ensures
        read_print(s) == done(
            Tree::Print {
                position: s.current.position,
                to_print: Box::new(read_level(5, s.advanced()).result->Ok_0.tree),
            },
            read_level(5, s.advanced()).state.advanced(),
        ),
{
    reveal(read_print);
}

/// Reading a token again that was given back gives the same token, and
/// costs one piece of work.
pub proof fn lemma_read_again(s: ParserState)
    requires
        s.cursor.fits(s.source),
    ensures
        s.advanced().went_back().advanced() == s.advanced(),
        s.advanced().went_back().fuel() <= s.fuel(),
        s.advanced().current.kind != Kind::Eof ==> s.advanced().fuel() < s.advanced().went_back().fuel(),
{
    reveal(ParserState::advanced);
    s.lemma_advanced();
    lemma_peeked(s);
}

/// One step of a block in which a statement is read: the statement is
/// added to those of the block, and the block goes on behind it.
pub proof fn lemma_step_with_a_statement(s: ParserState, block: Open)
    requires
        s.cursor.fits(s.source),
        ({
            let k = s.advanced().current.kind;
            k != Kind::End && k != Kind::Eof && k != Kind::Function && k != Kind::Procedure
        }),
        read_statement(s.advanced().went_back()).result is Ok,
    ensures
        ({
            let statement = read_statement(s.advanced().went_back());
            block_step(s, block) == (Step {
                state: statement.state,
                block: (Open {
                    statements: block.statements.push(statement.result->Ok_0),
                    ..block
                }),
                stop: statement.state.fuel() >= s.fuel(),
            })
        }),
{
    reveal_with_fuel(block_step, 1);
    reveal_with_fuel(read_statement, 1);
    lemma_read_again(s);
}

/// A statement that has no block in it, read where a block reads its
/// statements: behind a token that was given back.
pub proof fn lemma_simple_statement(s: ParserState)
    requires
        s.cursor.fits(s.source),
        !s.closed,
        begins_simple(s.advanced().current.kind),
    ensures
        read_statement(s.advanced().went_back()) == many(read_simple(s.advanced())),
{
    reveal_with_fuel(read_statement, 1);
    reveal_with_fuel(read_while, 1);
    reveal_with_fuel(read_if, 1);
    reveal_with_fuel(read_block_with, 1);
    reveal(ParserState::advanced);
    lemma_read_again(s);
    s.lemma_advanced();
    let p = s.advanced().went_back();
    assert((ParserState { closed: false, ..p }) == p);
}

} // verus!
