use crate::base::ast::{ASTNode, BlockNode};
use crate::base::errors::SyntaxError;
use crate::base::symbol_table::SymbolTable;
use crate::base::token::Kind;
use crate::base::tree::{trees, Tree};
use crate::parser::syntax::{
    block_step, close_block, outcome_as, read_block_rest, read_block_with,
    read_statement, Open, Step,
};
use crate::parser::{error_views, Parser};
use crate::scanner::position::Position;
use vstd::prelude::*;

verus! {

proof fn lemma_views_append(a: Seq<SyntaxError>, b: Seq<SyntaxError>)
    ensures
        error_views(a + b) == error_views(a) + error_views(b),
{
    assert(error_views(a + b) =~= error_views(a) + error_views(b));
}

impl Parser {
    /// Closes the scope of a block and makes its node, or hands out
    /// the errors that were met in it.
    pub(crate) fn close_block(
        &mut self,
        position: Position,
        statements: Vec<ASTNode>,
        errors: Vec<SyntaxError>,
    ) -> (r: Result<ASTNode, Vec<SyntaxError>>)
        requires
            old(self)@.scopes.len() > 0,
            forall|i: int| 0 <= i < statements@.len() ==> (#[trigger] statements@[i]).well_typed(),
        ensures
            match r {
                Ok(node) => node.well_typed() && node is Block && errors@.len() == 0,
                Err(e) => e == errors && e@.len() >= 1,
            },
            outcome_as(
                r,
                final(self)@,
                close_block(
                    old(self)@,
                    position,
                    (Open { errors: error_views(errors@), statements: trees(statements@) }),
                ),
            ),
    {
        let symbols = match self.exit_scope() {
            Some(t) => t,
            None => SymbolTable::new(),
        };
        if errors.len() == 0 {
            Ok(ASTNode::Block(BlockNode { position, context: symbols, statements }))
        } else {
            self.set_closed(true);
            Err(errors)
        }
    }

    /// Goes on after a statement that failed: after a block nothing is
    /// skipped; else tokens are skipped up to a boundary, which is
    /// given back unless it is a `;`.
    pub fn recover(&mut self)
        ensures
            final(self)@ == crate::parser::syntax::recovered(old(self)@),
            final(self)@.source == old(self)@.source,
            final(self)@.scopes == old(self)@.scopes,
            final(self)@.cursor.fits(final(self)@.source),
            old(self)@.errors.is_prefix_of(final(self)@.errors),
            final(self)@.fuel() <= old(self)@.fuel() + 1,
    {
        self.settled();
        if !self.is_closed() {
            self.skip_to_boundary();
            if !self.matches(Kind::Semicolon) {
                self.go_back();
            }
        }
    }

    /// Takes one step of a block: it reads a statement, or finds the
    /// end of the block. It says whether the block ends here.
    pub(crate) fn block_step(&mut self, stmts: &mut Vec<ASTNode>, errors: &mut Vec<SyntaxError>) -> (stop:
        bool)
        requires
            forall|i: int| 0 <= i < old(stmts)@.len() ==> (#[trigger] old(stmts)@[i]).well_typed(),
        ensures
            forall|i: int| 0 <= i < final(stmts)@.len() ==> (#[trigger] final(stmts)@[i]).well_typed(),
            final(self)@.source == old(self)@.source,
            final(self)@.cursor.fits(final(self)@.source),
            old(self)@.errors.is_prefix_of(final(self)@.errors),
            final(self)@.scopes.len() == old(self)@.scopes.len(),
            final(self)@.scopes.drop_last() == old(self)@.scopes.drop_last(),
            final(self)@.fuel() <= old(self)@.fuel(),
            !stop ==> final(self)@.fuel() < old(self)@.fuel(),
            block_step(
                old(self)@,
                (Open { errors: error_views(old(errors)@), statements: trees(old(stmts)@) }),
            ) == (Step {
                state: final(self)@,
                block: (Open {
                    errors: error_views(final(errors)@),
                    statements: trees(final(stmts)@),
                }),
                stop,
            }),
        decreases old(self)@.fuel(), 29nat,
    {
        reveal_with_fuel(block_step, 1);
        reveal_with_fuel(read_statement, 1);
        self.settled();
        let before = self.mark();
        let kind = self.advance().kind;
        if kind == Kind::End || kind == Kind::Eof {
            return true;
        }
        if kind == Kind::Function || kind == Kind::Procedure {
            let ghost met = errors@;
            let mut missing = self.unexpected_token_err(Kind::End, kind);
            proof {
                lemma_views_append(met, missing@);
                assert(error_views(missing@) =~= seq![missing@[0]@]);
                assert(error_views(met) + seq![missing@[0]@] =~= error_views(met).push(
                    missing@[0]@,
                ));
            }
            errors.append(&mut missing);
            self.go_back();
            return true;
        }
        self.go_back();
        let ghost peeked = self@;
        match self.parse_statement() {
            Ok(stmt) => {
                let ghost before = stmts@;
                stmts.push(stmt);
                proof {
                    self@.lemma_declares_drop(peeked);
                    assert(trees(stmts@) =~= trees(before).push(stmt.tree()));
                }
            },
            Err(mut errs) => {
                let ghost met = errors@;
                proof {
                    lemma_views_append(met, errs@);
                    self@.lemma_declares_drop(peeked);
                }
                errors.append(&mut errs);
                self.recover();
            },
        }
        self.mark() >= before
    }

    /// Parses a block in a scope of its own, which holds the symbols of
    /// `seed` at first. The current token is the `begin`; the block
    /// ends with its `end`, or with the source. After a statement that
    /// fails, tokens are skipped up to the next boundary and the block
    /// goes on, so that all its errors are found; after a block that
    /// fails nothing is skipped, since it was read to its end. The scope
    /// is closed again whatever happens.
    #[verifier::loop_isolation(false)]
    pub fn parse_block_with(&mut self, seed: SymbolTable) -> (r: Result<ASTNode, Vec<SyntaxError>>)
        ensures
            final(self)@.reads_on(old(self)@),
            match r {
                Ok(node) => node.well_typed() && node is Block,
                Err(errors) => errors@.len() >= 1,
            },
            outcome_as(r, final(self)@, read_block_with(old(self)@, seed.declarations())),
        decreases old(self)@.fuel(), 31nat,
    {
        reveal_with_fuel(read_block_with, 1);
        reveal_with_fuel(read_block_rest, 1);
        reveal_with_fuel(block_step, 1);
        self.settled();
        let position = self.current().position;
        let mut stmts: Vec<ASTNode> = Vec::new();
        let mut errors: Vec<SyntaxError> = Vec::new();
        let ghost declarations = seed.declarations();
        self.enter_scope(seed);
        assert(self@.scopes.drop_last() =~= old(self)@.scopes);
        assert(error_views(errors@) =~= Seq::empty());
        assert(trees(stmts@) =~= Seq::<Tree>::empty());
        loop
            invariant
                self@.source == old(self)@.source,
                self@.cursor.fits(self@.source),
                old(self)@.errors.is_prefix_of(self@.errors),
                self@.scopes.len() == old(self)@.scopes.len() + 1,
                self@.scopes.drop_last() == old(self)@.scopes,
                self@.fuel() <= old(self)@.fuel(),
                forall|i: int| 0 <= i < stmts@.len() ==> (#[trigger] stmts@[i]).well_typed(),
                read_block_rest(
                    self@,
                    position,
                    (Open { errors: error_views(errors@), statements: trees(stmts@) }),
                ) == read_block_with(old(self)@, declarations),
            decreases self@.fuel(),
        {
            let stop = self.block_step(&mut stmts, &mut errors);
            if stop {
                return self.close_block(position, stmts, errors);
            }
        }
    }

    /// Parses a block in a fresh scope. The current token is the
    /// `begin`; the block ends with its `end`, or with the source.
    pub fn parse_block(&mut self) -> (r: Result<ASTNode, Vec<SyntaxError>>)
        ensures
            final(self)@.reads_on(old(self)@),
            match r {
                Ok(node) => node.well_typed() && node is Block,
                Err(errors) => errors@.len() >= 1,
            },
            outcome_as(r, final(self)@, read_block_with(old(self)@, Seq::empty())),
        decreases old(self)@.fuel(), 32nat,
    {
        self.parse_block_with(SymbolTable::new())
    }
}

} // verus!
