//! Reading an expression never adds to the work that is left: the
//! grammar of expressions goes on after each of its parts, and every
//! expression that is read has cost at least one token.

use crate::base::symbol_table::SymbolType;
use crate::base::token::Kind;
use crate::base::tree::Constant;
use crate::base::types::SimpleType;
use crate::parser::grammar::{
    read_arguments, read_array, read_binary, read_bracket, read_call_parameters, read_elements,
    read_function_call, read_group, read_level, read_literal, read_named, read_negation,
    read_rest, read_symbol, read_unary, Read, Value,
};
use crate::parser::state::{resolve, ParserState};
use crate::scanner::position::Position;
use vstd::prelude::*;

verus! {

/// What was read from `s` has only read tokens: the source, the scopes
/// and the errors recorded before are kept, the scanner stands within
/// the source, and the work that is left has not grown.
pub open spec fn read_on<T>(r: Read<T>, s: ParserState) -> bool {
    r.state.reads_on(s)
}

/// What was read from `s` has only read tokens, and where a value was
/// read, at least one of them.
pub open spec fn read_some<T>(r: Read<T>, s: ParserState) -> bool {
    r.state.reads_on(s) && (r.result is Ok ==> r.state.fuel() < s.fuel())
}

/// Giving back the token that was just read leaves no more work than
/// there was before it was read.
pub proof fn lemma_peeked(s: ParserState)
    requires
        s.cursor.fits(s.source),
    ensures
        s.advanced().went_back().reads_on(s),
{
    s.lemma_advanced();
    let a = s.advanced();
    let b = a.went_back();
    assert(s.errors.is_prefix_of(b.errors));
}

/// A primary expression that is read has cost at least one token.
proof fn lemma_unary(s: ParserState)
    requires
        s.cursor.fits(s.source),
    ensures
        read_some(read_unary(s), s),
    decreases s.fuel(), 0nat,
{
    reveal_with_fuel(read_unary, 1);
    reveal_with_fuel(read_negation, 1);
    reveal_with_fuel(read_named, 1);
    reveal_with_fuel(read_group, 1);
    reveal_with_fuel(read_bracket, 1);
    s.lemma_advanced();
    let a = s.advanced();
    let k = a.current.kind;
    if !(k == Kind::Eof || a.fuel() >= s.fuel()) {
        if k == Kind::Bang {
            lemma_negation(a);
            read_negation(a).state.lemma_reads_trans(a, s);
        } else if k == Kind::Identifier {
            lemma_named(a);
            read_named(a).state.lemma_reads_trans(a, s);
        } else if crate::parser::grammar::is_literal(k) {
            a.lemma_advanced();
            read_literal(a).state.lemma_reads_trans(a, s);
        } else if k == Kind::LeftParen {
            lemma_group(a);
            read_group(a).state.lemma_reads_trans(a, s);
        } else if k == Kind::LeftSquare {
            lemma_bracket(a);
            read_bracket(a).state.lemma_reads_trans(a, s);
        }
    }
}

/// A negation only reads tokens.
proof fn lemma_negation(s: ParserState)
    requires
        s.cursor.fits(s.source),
    ensures
        read_on(read_negation(s), s),
    decreases s.fuel(), 20nat,
{
    reveal_with_fuel(read_negation, 1);
    reveal_with_fuel(read_unary, 1);
    lemma_unary(s);
}

/// What a name denotes only reads tokens.
proof fn lemma_named(s: ParserState)
    requires
        s.cursor.fits(s.source),
    ensures
        read_on(read_named(s), s),
    decreases s.fuel(), 21nat,
{
    reveal_with_fuel(read_named, 1);
    reveal_with_fuel(read_function_call, 1);
    reveal_with_fuel(read_symbol, 1);
    match resolve(s.scopes, s.current.lexeme) {
        None => {},
        Some(sym) => {
            if sym.entry.s_type != SymbolType::Procedure {
                let named = if sym.entry.s_type == SymbolType::Function {
                    lemma_function_call(s);
                    read_function_call(s)
                } else {
                    lemma_symbol(s);
                    read_symbol(s)
                };
                if named.result is Ok {
                    named.state.lemma_advanced();
                    named.state.advanced().lemma_reads_trans(named.state, s);
                }
            }
        },
    }
}

/// An expression in parentheses only reads tokens.
proof fn lemma_group(s: ParserState)
    requires
        s.cursor.fits(s.source),
    ensures
        read_on(read_group(s), s),
    decreases s.fuel(), 22nat,
{
    reveal_with_fuel(read_group, 1);
    reveal_with_fuel(read_level, 1);
    lemma_level(5, s);
    let inner = read_level(5, s);
    if inner.result is Ok {
        inner.state.lemma_advanced();
        inner.state.advanced().lemma_reads_trans(inner.state, s);
    }
}

/// An array literal and the token behind it only read tokens.
proof fn lemma_bracket(s: ParserState)
    requires
        s.cursor.fits(s.source),
    ensures
        read_on(read_bracket(s), s),
    decreases s.fuel(), 23nat,
{
    reveal_with_fuel(read_bracket, 1);
    reveal_with_fuel(read_array, 1);
    lemma_array(s);
    let array = read_array(s);
    if array.result is Ok {
        array.state.lemma_advanced();
        array.state.advanced().lemma_reads_trans(array.state, s);
    }
}

/// An array literal only reads tokens.
proof fn lemma_array(s: ParserState)
    requires
        s.cursor.fits(s.source),
    ensures
        read_on(read_array(s), s),
    decreases s.fuel(), 13nat,
{
    reveal_with_fuel(read_array, 1);
    reveal_with_fuel(read_elements, 1);
    if s.current.kind == Kind::LeftSquare {
        lemma_elements(s, None, s.current.position, Seq::empty());
    } else {
        assert(s.errors.is_prefix_of(s.errors));
    }
}

/// The elements of an array literal only read tokens.
proof fn lemma_elements(
    s: ParserState,
    base: Option<SimpleType>,
    begin: Position,
    items: Seq<Constant>,
)
    requires
        s.cursor.fits(s.source),
    ensures
        read_on(read_elements(s, base, begin, items), s),
    decreases s.fuel(), 12nat,
{
    reveal_with_fuel(read_elements, 1);
    reveal_with_fuel(read_unary, 1);
    lemma_unary(s);
    let element = read_unary(s);
    match element.result {
        Ok(v) => {
            let e = element.state;
            let fits = v.literal && v.r_type is Simple && (base matches Some(b) ==> b
                == v.r_type.base());
            if fits && e.current.kind == Kind::Comma && e.fuel() < s.fuel() {
                let next = items.push(v.tree->constant);
                lemma_elements(e, Some(v.r_type.base()), begin, next);
                read_elements(e, Some(v.r_type.base()), begin, next).state.lemma_reads_trans(e, s);
            }
        },
        Err(_) => {},
    }
}

/// The arguments of a call only read tokens.
proof fn lemma_arguments(s: ParserState, before: Seq<Value>)
    requires
        s.cursor.fits(s.source),
    ensures
        read_on(read_arguments(s, before), s),
    decreases s.fuel(), 16nat,
{
    reveal_with_fuel(read_arguments, 1);
    reveal_with_fuel(read_level, 1);
    lemma_level(5, s);
    let argument = read_level(5, s);
    match argument.result {
        Ok(v) => {
            let e = argument.state;
            if e.current.kind == Kind::Comma && e.fuel() < s.fuel() {
                lemma_arguments(e, before.push(v));
                read_arguments(e, before.push(v)).state.lemma_reads_trans(e, s);
            }
        },
        Err(_) => {},
    }
}

/// The arguments of a call, from its `(`, only read tokens.
proof fn lemma_call_parameters(s: ParserState)
    requires
        s.cursor.fits(s.source),
    ensures
        read_on(read_call_parameters(s), s),
    decreases s.fuel(), 17nat,
{
    reveal_with_fuel(read_call_parameters, 1);
    reveal_with_fuel(read_arguments, 1);
    s.lemma_advanced();
    lemma_peeked(s);
    let a = s.advanced();
    if a.current.kind != Kind::RightParen && a.went_back().fuel() <= s.fuel() {
        lemma_arguments(a.went_back(), Seq::empty());
        read_arguments(a.went_back(), Seq::empty()).state.lemma_reads_trans(a.went_back(), s);
    }
}

/// A call of a function only reads tokens.
proof fn lemma_function_call(s: ParserState)
    requires
        s.cursor.fits(s.source),
    ensures
        read_on(read_function_call(s), s),
    decreases s.fuel(), 14nat,
{
    reveal_with_fuel(read_function_call, 1);
    reveal_with_fuel(read_call_parameters, 1);
    s.lemma_advanced();
    assert(s.errors.is_prefix_of(s.errors));
    let a = s.advanced();
    match resolve(s.scopes, s.current.lexeme) {
        None => {},
        Some(f) => {
            if f.entry.s_type == SymbolType::Function && a.current.kind == Kind::LeftParen
                && a.fuel() < s.fuel() {
                lemma_call_parameters(a);
                read_call_parameters(a).state.lemma_reads_trans(a, s);
            }
        },
    }
}

/// A variable, an element of an array and a call only read tokens.
proof fn lemma_symbol(s: ParserState)
    requires
        s.cursor.fits(s.source),
    ensures
        read_on(read_symbol(s), s),
    decreases s.fuel(), 15nat,
{
    reveal_with_fuel(read_symbol, 1);
    reveal_with_fuel(read_function_call, 1);
    reveal_with_fuel(read_level, 1);
    s.lemma_advanced();
    lemma_peeked(s);
    assert(s.errors.is_prefix_of(s.errors));
    let a = s.advanced();
    match resolve(s.scopes, s.current.lexeme) {
        None => {},
        Some(sym) => {
            if sym.entry.s_type == SymbolType::Function {
                lemma_function_call(s);
            } else if sym.entry.s_type == SymbolType::Arr && a.current.kind == Kind::LeftSquare
                && a.fuel() < s.fuel() {
                lemma_level(5, a);
                read_level(5, a).state.lemma_reads_trans(a, s);
            }
        },
    }
}

/// An expression of a level of precedence that is read has cost at
/// least one token.
proof fn lemma_level(level: nat, s: ParserState)
    requires
        s.cursor.fits(s.source),
    ensures
        read_some(read_level(level, s), s),
    decreases s.fuel(), 2 * level + 1,
{
    reveal_with_fuel(read_level, 1);
    reveal_with_fuel(read_rest, 1);
    reveal_with_fuel(read_unary, 1);
    if level == 0 {
        lemma_unary(s);
    } else {
        lemma_level((level - 1) as nat, s);
        let first = read_level((level - 1) as nat, s);
        match first.result {
            Ok(v) => {
                lemma_rest(level, first.state, v);
                read_rest(level, first.state, v).state.lemma_reads_trans(first.state, s);
            },
            Err(_) => {},
        }
    }
}

/// The rest of a chain of operators only reads tokens.
proof fn lemma_rest(level: nat, s: ParserState, left: Value)
    requires
        s.cursor.fits(s.source),
    ensures
        read_on(read_rest(level, s, left), s),
    decreases s.fuel(), 2 * level,
{
    reveal_with_fuel(read_rest, 1);
    reveal_with_fuel(read_level, 1);
    assert(s.errors.is_prefix_of(s.errors));
    if !(level == 0 || !crate::parser::grammar::level_operator(level, s.current.kind)) {
        lemma_level((level - 1) as nat, s);
        let right = read_level((level - 1) as nat, s);
        match right.result {
            Ok(v) => {
                let both = read_binary(s.current, left, v, right.state);
                match both.result {
                    Ok(b) => {
                        if right.state.fuel() < s.fuel() {
                            lemma_rest(level, right.state, b);
                            read_rest(level, right.state, b).state.lemma_reads_trans(
                                right.state,
                                s,
                            );
                        }
                    },
                    Err(_) => {},
                }
            },
            Err(_) => {},
        }
    }
}

/// Reading an expression only reads tokens: the source, the scopes and
/// the errors recorded before are kept, and the work that is left does
/// not grow. An expression that is read has cost at least one token.
/// So the grammar always goes on after an operand that it has read:
/// the result is never the error without a description that stands
/// where the work would have grown.
pub proof fn lemma_expression_reads_on(level: nat, s: ParserState)
    requires
        s.cursor.fits(s.source),
    ensures
        read_level(level, s).state.reads_on(s),
        read_level(level, s).result is Ok ==> read_level(level, s).state.fuel() < s.fuel(),
        read_unary(s).state.reads_on(s),
        read_unary(s).result is Ok ==> read_unary(s).state.fuel() < s.fuel(),
{
    lemma_level(level, s);
    lemma_unary(s);
}

/// The rest of a chain of operators only reads tokens.
pub proof fn lemma_rest_reads_on(level: nat, s: ParserState, left: Value)
    requires
        s.cursor.fits(s.source),
    ensures
        read_rest(level, s, left).state.reads_on(s),
{
    lemma_rest(level, s, left);
}

} // verus!
