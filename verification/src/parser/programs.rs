//! The tree of a whole program, stated over the tokens of its source:
//! a program whose main block declares two integers with their values
//! and prints their sum.

use crate::base::ast::{integer, BinaryExprType};
use crate::base::errors::SyntaxErrorView;
use crate::base::symbol_table::{declared_for, Declared, SymbolType};
use crate::base::token::Kind;
use crate::base::tree::{Constant, Tree};
use crate::parser::grammar::{binary_value, variable_value};
use crate::parser::shapes::{
    is_operator, lemma_declaration_with_a_value, lemma_integer_literal, lemma_lone_operand,
    lemma_one_level, lemma_one_operator, lemma_print, lemma_simple_statement,
    lemma_step_with_a_statement, lemma_variable,
};
use crate::parser::state::{resolve, ParserState};
use crate::parser::syntax::{
    begun, block_step, close_block, declaration_tree, fine, nothing, program_step,
    read_block_rest, read_block_with, read_global_statement, read_globals, read_print,
    read_program, read_program_name, read_simple, read_source, read_statement,
    read_var_declaration, Found, Open, Outcome, Step,
};
use crate::parser::var_declaration::variable;
use crate::text::{integer_literal, same_ignoring_case};
use vstd::prelude::*;

verus! {

/// The state after `n` tokens more were read.
pub open spec fn after(s: ParserState, n: nat) -> ParserState
    decreases n,
{
    if n == 0 {
        s
    } else {
        after(s, (n - 1) as nat).advanced()
    }
}

/// Reading tokens keeps the scanner within the source, the scopes and
/// whether a block was closed, and adds no work; a token other than
/// the end of the source takes from the work.
pub proof fn lemma_after(s: ParserState, n: nat)
    requires
        s.cursor.fits(s.source),
    ensures
        after(s, n).reads_on(s),
        after(s, n).closed == s.closed,
        n > 0 ==> after(s, n).pending is None,
        n > 0 && after(s, n).current.kind != Kind::Eof ==> after(s, n).fuel() < s.fuel(),
    decreases n,
{
    if n > 0 {
        lemma_after(s, (n - 1) as nat);
        let before = after(s, (n - 1) as nat);
        before.lemma_advanced();
        before.advanced().lemma_reads_trans(before, s);
    } else {
        assert(s.errors.is_prefix_of(s.errors));
    }
}

/// A token that is no operator.
proof fn lemma_no_operator(k: Kind)
    requires
        k == Kind::Semicolon || k == Kind::RightParen,
    ensures
        !is_operator(k),
{
    lemma_one_level(k, 1);
}

/// One step of a block at the declaration of an integer with a literal
/// as its value: the declaration is added to the statements of the
/// block, the name is declared, and the block goes on behind the `;`.
pub proof fn lemma_step_at_a_declaration(s: ParserState, block: Open)
    requires
        s.cursor.fits(s.source),
        !s.closed,
        s.scopes.len() > 0,
        after(s, 1).current.kind == Kind::Var,
        after(s, 2).current.kind == Kind::Identifier,
        after(s, 3).current.kind == Kind::Colon,
        after(s, 4).current.kind == Kind::TInt,
        after(s, 5).current.kind == Kind::ColonEqual,
        after(s, 6).current.kind == Kind::LitInt,
        integer_literal(after(s, 6).current.lexeme) is Some,
        after(s, 7).current.kind == Kind::Semicolon,
        declared_for(s.scopes.last(), after(s, 2).current.lexeme) is None,
    ensures
        block_step(s, block) == (Step {
            state: after(s, 7).declared(
                variable(after(s, 2).current.lexeme, integer(), after(s, 2).current.position),
            ),
            block: (Open {
                statements: block.statements.push(
                    declaration_tree(
                        after(s, 2).current,
                        integer(),
                        Some(
                            Tree::Literal {
                                position: after(s, 6).current.position,
                                constant: Constant::Int(
                                    integer_literal(after(s, 6).current.lexeme)->0,
                                ),
                                r_type: integer(),
                            },
                        ),
                    ),
                ),
                ..block
            }),
            stop: false,
        }),
{
    reveal_with_fuel(after, 8);
    lemma_after(s, 1);
    lemma_after(s, 5);
    lemma_after(s, 7);
    let s1 = after(s, 1);
    let s5 = after(s, 5);
    lemma_no_operator(Kind::Semicolon);
    lemma_integer_literal(s5);
    lemma_lone_operand(5, s5);
    lemma_declaration_with_a_value(s1);
    assert(read_simple(s1) == read_var_declaration(s1)) by {
        reveal(read_simple);
    }
    lemma_simple_statement(s);
    lemma_step_with_a_statement(s, block);
}

/// The tree of the sum of two variables that are integers.
pub open spec fn sum_tree(s: ParserState, x: Declared, y: Declared) -> Tree {
    binary_value(
        integer(),
        after(s, 4).current,
        BinaryExprType::Addition,
        variable_value(integer(), after(s, 3).current, x.entry.s_type).tree,
        variable_value(integer(), after(s, 5).current, y.entry.s_type).tree,
    ).tree
}

/// Whether a declaration is that of an integer that is a variable or a
/// parameter.
pub open spec fn integer_variable(d: Declared) -> bool {
    d.entry.r_type == integer() && (d.entry.s_type == SymbolType::Var || d.entry.s_type
        == SymbolType::Param || d.entry.s_type == SymbolType::VarParam)
}

/// One step of a block at a statement that prints the sum of two
/// integers: the statement is added to the statements of the block,
/// with the sum of the two names as what it prints, and the block goes
/// on behind the `;`.
pub proof fn lemma_step_at_a_print(s: ParserState, block: Open)
    requires
        s.cursor.fits(s.source),
        !s.closed,
        after(s, 1).current.kind == Kind::Print,
        after(s, 2).current.kind == Kind::LeftParen,
        after(s, 3).current.kind == Kind::Identifier,
        after(s, 4).current.kind == Kind::Plus,
        after(s, 5).current.kind == Kind::Identifier,
        after(s, 6).current.kind == Kind::RightParen,
        after(s, 7).current.kind == Kind::Semicolon,
        resolve(s.scopes, after(s, 3).current.lexeme) matches Some(x) && integer_variable(x),
        resolve(s.scopes, after(s, 5).current.lexeme) matches Some(y) && integer_variable(y),
    ensures
        block_step(s, block) == (Step {
            state: after(s, 7),
            block: (Open {
                statements: block.statements.push(
                    Tree::Print {
                        position: after(s, 1).current.position,
                        to_print: Box::new(
                            sum_tree(
                                s,
                                resolve(s.scopes, after(s, 3).current.lexeme)->0,
                                resolve(s.scopes, after(s, 5).current.lexeme)->0,
                            ),
                        ),
                    },
                ),
                ..block
            }),
            stop: false,
        }),
{
    reveal_with_fuel(after, 8);
    lemma_after(s, 1);
    lemma_after(s, 2);
    lemma_after(s, 4);
    lemma_after(s, 6);
    lemma_after(s, 7);
    let s1 = after(s, 1);
    let s2 = after(s, 2);
    let s4 = after(s, 4);
    lemma_no_operator(Kind::RightParen);
    lemma_one_level(Kind::Plus, 2);
    lemma_variable(s2);
    lemma_variable(s4);
    lemma_one_operator(s2);
    lemma_print(s1);
    assert(read_simple(s1) == read_print(s1)) by {
        reveal(read_simple);
    }
    lemma_simple_statement(s);
    lemma_step_with_a_statement(s, block);
}

/// Reading `n` tokens after `m` tokens is reading `m + n` tokens.
pub proof fn lemma_after_add(s: ParserState, m: nat, n: nat)
    ensures
        after(after(s, m), n) == after(s, m + n),
    decreases n,
{
    if n > 0 {
        lemma_after_add(s, m, (n - 1) as nat);
    }
}

/// The tokens that are read do not depend on the scopes.
pub proof fn lemma_after_scopes(s: ParserState, scopes: Seq<Seq<Declared>>, n: nat)
    ensures
        after(ParserState { scopes, ..s }, n) == (ParserState { scopes, ..after(s, n) }),
    decreases n,
{
    reveal(ParserState::advanced);
    if n > 0 {
        lemma_after_scopes(s, scopes, (n - 1) as nat);
    }
}

/// Whether the tokens behind a `begin`, which is the current token of
/// `b`, are those of a block that declares two integers of different
/// names with a literal each as their values, and prints the sum of
/// the first and the second:
/// `var x : int := 2; var y : int := 3; writeln(x + y); end`.
pub open spec fn declares_two_and_prints(b: ParserState) -> bool {
    &&& after(b, 1).current.kind == Kind::Var
    &&& after(b, 2).current.kind == Kind::Identifier
    &&& after(b, 3).current.kind == Kind::Colon
    &&& after(b, 4).current.kind == Kind::TInt
    &&& after(b, 5).current.kind == Kind::ColonEqual
    &&& after(b, 6).current.kind == Kind::LitInt
    &&& after(b, 7).current.kind == Kind::Semicolon
    &&& after(b, 8).current.kind == Kind::Var
    &&& after(b, 9).current.kind == Kind::Identifier
    &&& after(b, 10).current.kind == Kind::Colon
    &&& after(b, 11).current.kind == Kind::TInt
    &&& after(b, 12).current.kind == Kind::ColonEqual
    &&& after(b, 13).current.kind == Kind::LitInt
    &&& after(b, 14).current.kind == Kind::Semicolon
    &&& after(b, 15).current.kind == Kind::Print
    &&& after(b, 16).current.kind == Kind::LeftParen
    &&& after(b, 17).current.kind == Kind::Identifier
    &&& after(b, 18).current.kind == Kind::Plus
    &&& after(b, 19).current.kind == Kind::Identifier
    &&& after(b, 20).current.kind == Kind::RightParen
    &&& after(b, 21).current.kind == Kind::Semicolon
    &&& after(b, 22).current.kind == Kind::End
    &&& integer_literal(after(b, 6).current.lexeme) is Some
    &&& integer_literal(after(b, 13).current.lexeme) is Some
    &&& !same_ignoring_case(after(b, 2).current.lexeme, after(b, 9).current.lexeme)
    &&& after(b, 17).current.lexeme == after(b, 2).current.lexeme
    &&& after(b, 19).current.lexeme == after(b, 9).current.lexeme
}

/// What the declaration says whose name is the token `n` tokens behind
/// the `begin`.
pub open spec fn declared_at(b: ParserState, n: nat) -> Declared {
    variable(after(b, n).current.lexeme, integer(), after(b, n).current.position)
}

/// The tree of the declaration whose `var` is the token `n` tokens
/// behind the `begin`.
pub open spec fn declaration_at(b: ParserState, n: nat) -> Tree {
    declaration_tree(
        after(b, n + 1).current,
        integer(),
        Some(
            Tree::Literal {
                position: after(b, n + 5).current.position,
                constant: Constant::Int(integer_literal(after(b, n + 5).current.lexeme)->0),
                r_type: integer(),
            },
        ),
    )
}

/// The tree of the statement that prints the sum.
pub open spec fn print_of_sum(b: ParserState) -> Tree {
    Tree::Print {
        position: after(b, 15).current.position,
        to_print: Box::new(
            Tree::Binary {
                position: after(b, 18).current.position,
                left: Box::new(
                    Tree::VarName {
                        position: after(b, 17).current.position,
                        id: after(b, 17).current,
                        r_type: integer(),
                        s_type: SymbolType::Var,
                    },
                ),
                op: after(b, 18).current,
                op_type: BinaryExprType::Addition,
                right: Box::new(
                    Tree::VarName {
                        position: after(b, 19).current.position,
                        id: after(b, 19).current,
                        r_type: integer(),
                        s_type: SymbolType::Var,
                    },
                ),
                r_type: integer(),
            },
        ),
    }
}

/// The state in the block when `n` tokens behind the `begin` were read
/// and the scope of the block holds `names`.
pub open spec fn within(b: ParserState, names: Seq<Declared>, n: nat) -> ParserState {
    ParserState { scopes: b.scopes.push(names), ..after(b, n) }
}

/// The first step of the block reads the first declaration.
proof fn lemma_first_step(b: ParserState)
    requires
        b.cursor.fits(b.source),
        !b.closed,
        declares_two_and_prints(b),
    ensures
        block_step(
            within(b, Seq::empty(), 0),
            (Open { errors: Seq::empty(), statements: Seq::empty() }),
        ) == (Step {
            state: within(b, seq![declared_at(b, 2)], 7),
            block: (Open { errors: Seq::empty(), statements: seq![declaration_at(b, 1)] }),
            stop: false,
        }),
{
    let e = within(b, Seq::empty(), 0);
    let open = Open { errors: Seq::empty(), statements: Seq::empty() };
    lemma_after_scopes(b, e.scopes, 1);
    lemma_after_scopes(b, e.scopes, 2);
    lemma_after_scopes(b, e.scopes, 3);
    lemma_after_scopes(b, e.scopes, 4);
    lemma_after_scopes(b, e.scopes, 5);
    lemma_after_scopes(b, e.scopes, 6);
    lemma_after_scopes(b, e.scopes, 7);
    assert(e == (ParserState { scopes: e.scopes, ..b }));
    assert(e.scopes.last() == Seq::<Declared>::empty());
    lemma_step_at_a_declaration(e, open);
    let n = after(e, 7).declared(declared_at(b, 2));
    assert(n.scopes =~= b.scopes.push(seq![declared_at(b, 2)]));
    assert(n == within(b, seq![declared_at(b, 2)], 7));
    assert(open.statements.push(declaration_at(b, 1)) =~= seq![declaration_at(b, 1)]);
}

/// The second step of the block reads the second declaration.
proof fn lemma_second_step(b: ParserState)
    requires
        b.cursor.fits(b.source),
        !b.closed,
        declares_two_and_prints(b),
    ensures
        block_step(
            within(b, seq![declared_at(b, 2)], 7),
            (Open { errors: Seq::empty(), statements: seq![declaration_at(b, 1)] }),
        ) == (Step {
            state: within(b, seq![declared_at(b, 2), declared_at(b, 9)], 14),
            block: (Open {
                errors: Seq::empty(),
                statements: seq![declaration_at(b, 1), declaration_at(b, 8)],
            }),
            stop: false,
        }),
{
    let e = within(b, seq![declared_at(b, 2)], 7);
    let open = Open { errors: Seq::empty(), statements: seq![declaration_at(b, 1)] };
    let t = after(b, 7);
    lemma_after(b, 7);
    lemma_after_scopes(t, e.scopes, 1);
    lemma_after_scopes(t, e.scopes, 2);
    lemma_after_scopes(t, e.scopes, 3);
    lemma_after_scopes(t, e.scopes, 4);
    lemma_after_scopes(t, e.scopes, 5);
    lemma_after_scopes(t, e.scopes, 6);
    lemma_after_scopes(t, e.scopes, 7);
    lemma_after_add(b, 7, 1);
    lemma_after_add(b, 7, 2);
    lemma_after_add(b, 7, 3);
    lemma_after_add(b, 7, 4);
    lemma_after_add(b, 7, 5);
    lemma_after_add(b, 7, 6);
    lemma_after_add(b, 7, 7);
    assert(e == (ParserState { scopes: e.scopes, ..t }));
    assert(e.scopes.last() == seq![declared_at(b, 2)]);
    assert(declared_for(e.scopes.last(), after(b, 9).current.lexeme) is None) by {
        reveal_with_fuel(crate::base::symbol_table::last_declared, 3);
    }
    lemma_step_at_a_declaration(e, open);
    let n = after(e, 7).declared(declared_at(b, 9));
    assert(seq![declared_at(b, 2)].push(declared_at(b, 9)) =~= seq![
        declared_at(b, 2),
        declared_at(b, 9),
    ]);
    assert(e.scopes.drop_last() =~= b.scopes);
    assert(n.scopes =~= b.scopes.push(seq![declared_at(b, 2), declared_at(b, 9)]));
    assert(n == within(b, seq![declared_at(b, 2), declared_at(b, 9)], 14));
    assert(open.statements.push(declaration_at(b, 8)) =~= seq![
        declaration_at(b, 1),
        declaration_at(b, 8),
    ]);
}

/// The third step of the block reads the statement that prints.
proof fn lemma_third_step(b: ParserState)
    requires
        b.cursor.fits(b.source),
        !b.closed,
        declares_two_and_prints(b),
    ensures
        block_step(
            within(b, seq![declared_at(b, 2), declared_at(b, 9)], 14),
            (Open {
                errors: Seq::empty(),
                statements: seq![declaration_at(b, 1), declaration_at(b, 8)],
            }),
        ) == (Step {
            state: within(b, seq![declared_at(b, 2), declared_at(b, 9)], 21),
            block: (Open {
                errors: Seq::empty(),
                statements: seq![declaration_at(b, 1), declaration_at(b, 8), print_of_sum(b)],
            }),
            stop: false,
        }),
{
    let names = seq![declared_at(b, 2), declared_at(b, 9)];
    let e = within(b, names, 14);
    let open = Open {
        errors: Seq::empty(),
        statements: seq![declaration_at(b, 1), declaration_at(b, 8)],
    };
    let t = after(b, 14);
    lemma_after(b, 14);
    lemma_after_scopes(t, e.scopes, 1);
    lemma_after_scopes(t, e.scopes, 2);
    lemma_after_scopes(t, e.scopes, 3);
    lemma_after_scopes(t, e.scopes, 4);
    lemma_after_scopes(t, e.scopes, 5);
    lemma_after_scopes(t, e.scopes, 6);
    lemma_after_scopes(t, e.scopes, 7);
    lemma_after_add(b, 14, 1);
    lemma_after_add(b, 14, 2);
    lemma_after_add(b, 14, 3);
    lemma_after_add(b, 14, 4);
    lemma_after_add(b, 14, 5);
    lemma_after_add(b, 14, 6);
    lemma_after_add(b, 14, 7);
    assert(e == (ParserState { scopes: e.scopes, ..t }));
    assert(e.scopes.last() == names);
    let x = after(b, 2).current.lexeme;
    let y = after(b, 9).current.lexeme;
    assert(same_ignoring_case(x, x));
    assert(same_ignoring_case(y, y));
    assert(!same_ignoring_case(y, x)) by {
        if same_ignoring_case(y, x) {
            assert(same_ignoring_case(x, y));
        }
    }
    assert(declared_for(names, x) == Some(declared_at(b, 2))) by {
        reveal_with_fuel(crate::base::symbol_table::last_declared, 3);
    }
    assert(declared_for(names, y) == Some(declared_at(b, 9))) by {
        reveal_with_fuel(crate::base::symbol_table::last_declared, 3);
    }
    assert(resolve(e.scopes, x) == Some(declared_at(b, 2)));
    assert(resolve(e.scopes, y) == Some(declared_at(b, 9)));
    lemma_step_at_a_print(e, open);
    assert(sum_tree(e, declared_at(b, 2), declared_at(b, 9)) == *print_of_sum(b)->to_print);
    assert(open.statements.push(print_of_sum(b)) =~= seq![
        declaration_at(b, 1),
        declaration_at(b, 8),
        print_of_sum(b),
    ]);
    lemma_after_scopes(b, e.scopes, 21);
}

/// A block that declares two integers and prints their sum: its tree
/// holds the two declarations and the print statement, in this order,
/// and the two names as what its scope declares. The parser ends at
/// the `end` of the block, with the scopes that it had before.
pub proof fn lemma_block_of_two_declarations_and_a_print(b: ParserState)
    requires
        b.cursor.fits(b.source),
        !b.closed,
        declares_two_and_prints(b),
    ensures
        read_block_with(b, Seq::empty()) == fine(
            Tree::Block {
                position: b.current.position,
                context: seq![declared_at(b, 2), declared_at(b, 9)],
                statements: seq![declaration_at(b, 1), declaration_at(b, 8), print_of_sum(b)],
            },
            after(b, 22),
        ),
{
    reveal_with_fuel(read_block_with, 1);
    reveal_with_fuel(read_block_rest, 1);
    reveal_with_fuel(block_step, 1);
    reveal_with_fuel(read_statement, 1);
    let names = seq![declared_at(b, 2), declared_at(b, 9)];
    let e0 = within(b, Seq::empty(), 0);
    let e1 = within(b, seq![declared_at(b, 2)], 7);
    let e2 = within(b, names, 14);
    let e3 = within(b, names, 21);
    let o0 = Open { errors: Seq::empty(), statements: Seq::empty() };
    let o1 = Open { errors: Seq::empty(), statements: seq![declaration_at(b, 1)] };
    let o2 = Open {
        errors: Seq::empty(),
        statements: seq![declaration_at(b, 1), declaration_at(b, 8)],
    };
    let o3 = Open {
        errors: Seq::empty(),
        statements: seq![declaration_at(b, 1), declaration_at(b, 8), print_of_sum(b)],
    };
    let at = b.current.position;
    lemma_first_step(b);
    lemma_second_step(b);
    lemma_third_step(b);
    lemma_after(b, 7);
    lemma_after(b, 14);
    lemma_after(b, 21);
    lemma_after(b, 22);
    lemma_after_add(b, 7, 7);
    lemma_after_add(b, 14, 7);
    lemma_after(after(b, 7), 7);
    lemma_after(after(b, 14), 7);
    // the last step finds the `end`
    lemma_after_scopes(after(b, 21), e3.scopes, 1);
    lemma_after_add(b, 21, 1);
    assert(e3 == (ParserState { scopes: e3.scopes, ..after(b, 21) }));
    let last = e3.advanced();
    assert(last == (ParserState { scopes: e3.scopes, ..after(b, 22) })) by {
        reveal_with_fuel(after, 2);
    }
    assert(block_step(e3, o3) == (Step { state: last, block: o3, stop: true }));
    assert(last.scopes.drop_last() =~= b.scopes);
    assert(close_block(last, at, o3) == fine(
        Tree::Block { position: at, context: names, statements: o3.statements },
        after(b, 22),
    ));
    assert(read_block_rest(e3, at, o3) == close_block(last, at, o3));
    assert(read_block_rest(e2, at, o2) == read_block_rest(e3, at, o3));
    assert(read_block_rest(e1, at, o1) == read_block_rest(e2, at, o2));
    assert(read_block_rest(e0, at, o0) == read_block_rest(e1, at, o1));
    assert(read_block_with(b, Seq::empty()) == read_block_rest(e0, at, o0));
}

/// The tree of the block that declares two integers and prints their
/// sum, whose `begin` is the current token of `b`.
pub open spec fn block_of_two_and_a_print(b: ParserState) -> Tree {
    Tree::Block {
        position: b.current.position,
        context: seq![declared_at(b, 2), declared_at(b, 9)],
        statements: seq![declaration_at(b, 1), declaration_at(b, 8), print_of_sum(b)],
    }
}

/// A program that is its name and a main block that declares two
/// integers and prints their sum,
/// `program p; begin var x : int := 2; var y : int := 3; writeln(x + y); end`,
/// is read without an error where the scanner finds none: its tree is
/// a program with that name, no function, no procedure, and the main
/// block with the two declarations and the print statement, in this
/// order.
pub proof fn lemma_program_of_two_declarations_and_a_print(s: ParserState)
    requires
        s.cursor.fits(s.source),
        !s.closed,
        s.current.kind != Kind::Eof,
        after(s, 1).current.kind == Kind::Program,
        after(s, 2).current.kind == Kind::Identifier,
        after(s, 3).current.kind == Kind::Semicolon,
        after(s, 4).current.kind == Kind::Begin,
        declares_two_and_prints(after(s, 4)),
        after(s, 27).current.kind == Kind::Eof,
        after(s, 27).errors.len() == 0,
    ensures
        read_program(s) == (Outcome {
            result: Ok(
                Tree::Program {
                    program_name: after(s, 2).current,
                    functions: Seq::empty(),
                    procedures: Seq::empty(),
                    main_block: Box::new(block_of_two_and_a_print(after(s, 4))),
                },
            ),
            state: after(s, 27),
        }),
{
    reveal_with_fuel(read_globals, 1);
    reveal(program_step);
    reveal(read_global_statement);
    reveal(read_program_name);
    reveal_with_fuel(after, 5);
    let s3 = after(s, 3);
    let b = after(s, 4);
    let s26 = after(s, 26);
    let s27 = after(s, 27);
    lemma_after(s, 1);
    lemma_after(s, 3);
    lemma_after(s, 4);
    lemma_after(s, 26);
    lemma_after(s, 27);
    lemma_after_add(s, 4, 22);
    lemma_after_add(s, 3, 23);
    lemma_after(s3, 23);
    lemma_after_add(s, 26, 1);
    assert(s27 == s26.advanced()) by {
        reveal_with_fuel(after, 2);
    }
    lemma_block_of_two_declarations_and_a_print(b);
    let name = after(s, 2).current;
    let block = block_of_two_and_a_print(b);
    let f0 = nothing();
    let f1 = Found { name: Some(name), ..f0 };
    let f2 = Found { main: Some(block), ..f1 };
    // the name of the program
    assert((ParserState { closed: false, ..s }) == s);
    assert(read_global_statement(s) == fine(Tree::ProgramName { id: name }, s3));
    assert(program_step(s, f0) == (s3, f1));
    // the main block
    assert((ParserState { closed: false, ..s3 }) == s3);
    assert(read_global_statement(s3) == fine(block, s26));
    assert(program_step(s3, f1) == (s26, f2));
    // the end of the source
    assert((ParserState { closed: false, ..s26 }) == s26);
    assert(read_global_statement(s26) == fine(Tree::Eof { eof: s27.current }, s27));
    assert(program_step(s26, f2) == (s27, f2));
    assert(read_globals(s26, f2) == (s27, f2));
    assert(read_globals(s3, f1) == read_globals(s26, f2));
    assert(read_globals(s, f0) == read_globals(s3, f1));
}

/// The same of a source text: where the parser that begins to read it
/// meets the tokens of such a program, the source is read as that
/// program.
pub proof fn lemma_source_of_two_declarations_and_a_print(source: Seq<char>)
    requires
        source.len() <= usize::MAX,
        after(begun(source), 1).current.kind == Kind::Program,
        after(begun(source), 2).current.kind == Kind::Identifier,
        after(begun(source), 3).current.kind == Kind::Semicolon,
        after(begun(source), 4).current.kind == Kind::Begin,
        declares_two_and_prints(after(begun(source), 4)),
        after(begun(source), 27).current.kind == Kind::Eof,
        after(begun(source), 27).errors.len() == 0,
    ensures
        read_source(source) == Ok::<Tree, Seq<SyntaxErrorView>>(
            Tree::Program {
                program_name: after(begun(source), 2).current,
                functions: Seq::empty(),
                procedures: Seq::empty(),
                main_block: Box::new(block_of_two_and_a_print(after(begun(source), 4))),
            },
        ),
{
    lemma_program_of_two_declarations_and_a_print(begun(source));
}

} // verus!
