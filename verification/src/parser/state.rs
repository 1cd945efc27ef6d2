//! What a parser holds, as plain values, and what its basic steps do to
//! it.

use crate::base::ast::ASTNode;
use crate::base::errors::{SyntaxError, SyntaxErrorView};
use crate::base::symbol_table::{declared_for, Declared};
use crate::base::token::{Kind, TokenView};
use crate::scanner::lexis::{current_line, fetch, lemma_fetch_moves, Cursor};
use crate::scanner::position::Position;
use vstd::prelude::*;

verus! {

/// The state of a parser: the source and where its scanner stands, the
/// token read before the current one, the current token, the token that
/// was given back if there is one, the errors recorded so far, the
/// stack of scopes, innermost last, and whether the statement that
/// failed last was read to its end.
pub ghost struct ParserState {
    pub source: Seq<char>,
    pub cursor: Cursor,
    pub previous: TokenView,
    pub current: TokenView,
    pub pending: Option<TokenView>,
    pub errors: Seq<SyntaxErrorView>,
    pub scopes: Seq<Seq<Declared>>,
    pub closed: bool,
}

/// Whether a token of this kind ends the skipping after an error: `;`,
/// `end`, `function`, `procedure`, `begin` and the end of the source.
pub open spec fn boundary(k: Kind) -> bool {
    k == Kind::Semicolon || k == Kind::Eof || k == Kind::End || k == Kind::Function || k
        == Kind::Procedure || k == Kind::Begin
}

/// The symbol that a name denotes in the scopes `scopes[..=i]`: that of
/// the innermost scope that declares it.
pub open spec fn resolve_from(scopes: Seq<Seq<Declared>>, name: Seq<char>, i: int) -> Option<
    Declared,
>
    decreases i + 1,
{
    if i < 0 || i >= scopes.len() {
        None
    } else {
        match declared_for(scopes[i], name) {
            Some(s) => Some(s),
            None => resolve_from(scopes, name, i - 1),
        }
    }
}

/// The symbol that a name denotes: that of the innermost scope that
/// declares it.
pub open spec fn resolve(scopes: Seq<Seq<Declared>>, name: Seq<char>) -> Option<Declared> {
    resolve_from(scopes, name, scopes.len() - 1)
}

/// The description of the error for a name that no open scope
/// declares, met in an expression.
pub open spec fn unknown_symbol_message(name: Seq<char>) -> Seq<char> {
    "Unknown symbol in expression: "@ + name
}

/// Whether `errors` is one error, with this content.
pub open spec fn single_error(errors: Seq<SyntaxError>, e: SyntaxErrorView) -> bool {
    errors.len() == 1 && errors[0]@ == e
}

/// What holds after an expression was parsed: only tokens were read;
/// an expression that is handed out obeys the type rules and has cost
/// at least one token; a failure is one error.
pub open spec fn expression_parsed(
    old: ParserState,
    new: ParserState,
    r: Result<ASTNode, Vec<SyntaxError>>,
) -> bool {
    &&& new.reads_on(old)
    &&& match r {
        Ok(node) => node.well_typed() && new.fuel() < old.fuel(),
        Err(errors) => errors@.len() == 1,
    }
    &&& old.begins_unknown() ==> (r matches Err(errors) && single_error(
        errors@,
        old.advanced().error(unknown_symbol_message(old.advanced().current.lexeme)),
    ))
}

/// What holds after a statement was parsed, whether it is handed out
/// or not: the source and the recorded errors are kept and the work
/// that is left has not grown; the stack of scopes is as deep as
/// before, its outer scopes are untouched and the innermost one has
/// lost nothing; a statement that is handed out obeys the type rules; a
/// failure is at least one error.
pub open spec fn statement_parsed(
    old: ParserState,
    new: ParserState,
    r: Result<ASTNode, Vec<SyntaxError>>,
) -> bool {
    &&& new.declares_on(old)
    &&& match r {
        Ok(node) => node.well_typed(),
        Err(errors) => errors@.len() >= 1,
    }
}

/// The view of the token that a parser holds before it has read one.
pub open spec fn no_token() -> TokenView {
    TokenView { kind: Kind::InitParser, lexeme: Seq::empty(), position: Position { char_number: 0, line: 0, col: 0 } }
}

impl ParserState {
    /// The state of a parser that was just made for `source`.
    pub open spec fn initial(source: Seq<char>) -> ParserState {
        ParserState {
            source,
            cursor: Cursor::start(),
            previous: no_token(),
            current: no_token(),
            pending: None,
            errors: Seq::empty(),
            scopes: Seq::empty(),
            closed: false,
        }
    }

    /// A bound on the work that is left: it falls with every token that
    /// is read, and rises by at most one when a token is given back.
    pub open spec fn fuel(self) -> nat {
        2 * self.cursor.remaining(self.source) + if self.pending is Some && self.pending->0.kind
            != Kind::Eof {
            1nat
        } else {
            0nat
        }
    }

    /// The state after the next token was read: the token given back,
    /// if there is one, else the next that the scanner gives, the errors
    /// met on the way recorded.
    #[verifier::opaque]
    pub open spec fn advanced(self) -> ParserState {
        match self.pending {
            Some(t) => ParserState { previous: self.current, current: t, pending: None, ..self },
            None => {
                let f = fetch(self.source, self.cursor);
                ParserState {
                    previous: self.current,
                    current: f.token,
                    cursor: f.cursor,
                    errors: self.errors + f.errors,
                    pending: None,
                    ..self
                }
            },
        }
    }

    /// The state after `d` was declared in the innermost scope.
    pub open spec fn declared(self, d: Declared) -> ParserState {
        ParserState { scopes: self.scopes.drop_last().push(self.scopes.last().push(d)), ..self }
    }

    /// Whether the innermost scope declares `name`.
    pub open spec fn declares(self, name: Seq<char>) -> bool {
        self.scopes.len() > 0 && declared_for(self.scopes.last(), name) is Some
    }

    /// The state after the current token was given back.
    pub open spec fn went_back(self) -> ParserState {
        ParserState { pending: Some(self.current), current: self.previous, ..self }
    }

    /// The state after tokens were skipped up to a boundary.
    #[verifier::opaque]
    pub open spec fn synced(self) -> ParserState
        decreases self.fuel(),
    {
        if boundary(self.current.kind) || !self.cursor.fits(self.source) {
            self
        } else {
            let a = self.advanced();
            if boundary(a.current.kind) {
                a
            } else {
                proof {
                    self.lemma_advanced();
                }
                a.synced()
            }
        }
    }

    /// The state after a statement that failed was left behind: tokens
    /// were skipped up to a boundary; a `;`, an `end` and the end of the
    /// source stay the current token, and a `function`, a `procedure`
    /// and a `begin` were given back, so that they are read next.
    pub open spec fn resynced(self) -> ParserState {
        let y = self.synced();
        let k = y.current.kind;
        if k == Kind::Function || k == Kind::Procedure || k == Kind::Begin {
            y.went_back()
        } else {
            y
        }
    }

    /// The syntax error that a parser in this state reports with the
    /// given description: at the current token, with the line that the
    /// scanner is on.
    pub open spec fn error(self, description: Seq<char>) -> SyntaxErrorView {
        SyntaxErrorView {
            position: self.current.position,
            raw_line: current_line(self.source, self.cursor),
            description,
        }
    }

    /// What every step of the parser keeps: the source, the errors
    /// recorded before, and the depth of the stack of scopes; and the
    /// work that is left does not grow.
    pub open spec fn extends(self, old: ParserState) -> bool {
        &&& self.source == old.source
        &&& old.errors.is_prefix_of(self.errors)
        &&& self.scopes.len() == old.scopes.len()
        &&& self.fuel() <= old.fuel()
    }

    /// Whether the next token is an identifier that no open scope
    /// declares.
    pub open spec fn begins_unknown(self) -> bool {
        &&& self.advanced().current.kind == Kind::Identifier
        &&& resolve(self.scopes, self.advanced().current.lexeme) is None
    }

    /// What a step keeps that reads tokens and declares nothing: what
    /// `extends` says, and the scopes.
    pub open spec fn reads_on(self, old: ParserState) -> bool {
        &&& self.extends(old)
        &&& self.scopes == old.scopes
        &&& self.cursor.fits(self.source)
    }

    /// What a step keeps that may declare names in the innermost scope:
    /// what `extends` says; the outer scopes; and what the innermost
    /// scope declared before.
    pub open spec fn declares_on(self, old: ParserState) -> bool {
        &&& self.extends(old)
        &&& self.cursor.fits(self.source)
        &&& self.scopes.drop_last() == old.scopes.drop_last()
        &&& old.scopes.len() > 0 ==> old.scopes.last().is_prefix_of(self.scopes.last())
    }

    /// Declaring a name is a step that may declare.
    pub proof fn lemma_declared(self, d: Declared)
        requires
            self.scopes.len() > 0,
            self.cursor.fits(self.source),
        ensures
            self.declared(d).declares_on(self),
            self.declared(d).scopes.len() == self.scopes.len(),
    {
        let after = self.declared(d);
        assert(after.scopes.drop_last() =~= self.scopes.drop_last());
        assert(after.scopes.last() == self.scopes.last().push(d));
        assert(self.scopes.last().is_prefix_of(after.scopes.last()));
        assert(self.errors.is_prefix_of(after.errors));
    }

    /// A step that may declare keeps the outer scopes and the depth.
    pub proof fn lemma_declares_drop(self, old: ParserState)
        requires
            self.declares_on(old),
        ensures
            self.scopes.len() == old.scopes.len(),
            self.scopes.drop_last() == old.scopes.drop_last(),
            self.source == old.source,
            old.errors.is_prefix_of(self.errors),
            self.fuel() <= old.fuel(),
            self.cursor.fits(self.source),
    {
    }

    /// A step that declares nothing is a step that may declare.
    pub proof fn lemma_reads_declares(self, old: ParserState)
        requires
            self.reads_on(old),
        ensures
            self.declares_on(old),
    {
    }

    /// Steps that may declare follow one another.
    pub proof fn lemma_declares_trans(self, mid: ParserState, old: ParserState)
        requires
            mid.declares_on(old),
            self.declares_on(mid),
        ensures
            self.declares_on(old),
    {
        assert(old.errors.is_prefix_of(self.errors));
        if old.scopes.len() > 0 {
            assert(mid.scopes.len() > 0);
            assert(old.scopes.last().is_prefix_of(self.scopes.last()));
        }
    }

    /// Steps that declare nothing follow one another.
    pub proof fn lemma_reads_trans(self, mid: ParserState, old: ParserState)
        requires
            mid.reads_on(old),
            self.reads_on(mid),
        ensures
            self.reads_on(old),
    {
        assert(old.errors.is_prefix_of(self.errors));
    }

    /// Reading a token never adds to the work that is left, and a token
    /// other than the end of the source takes from it.
    pub proof fn lemma_advanced(self)
        requires
            self.cursor.fits(self.source),
        ensures
            self.advanced().cursor.fits(self.source),
            self.advanced().extends(self),
            self.advanced().scopes == self.scopes,
            self.advanced().current.kind != Kind::Eof ==> self.advanced().fuel() < self.fuel(),
            self.advanced().current.kind != Kind::Eof && self.pending is None
                ==> self.advanced().fuel() + 2 <= self.fuel(),
            self.advanced().pending is None,
            self.advanced().closed == self.closed,
    {
        reveal(ParserState::advanced);
        lemma_fetch_moves(self.source, self.cursor);
    }

    /// Skipping to a boundary ends at one, and adds nothing to the work
    /// that is left.
    pub proof fn lemma_synced(self)
        requires
            self.cursor.fits(self.source),
        ensures
            self.synced().cursor.fits(self.source),
            self.synced().extends(self),
            self.synced().scopes == self.scopes,
            boundary(self.synced().current.kind),
            !boundary(self.current.kind) ==> self.synced().pending is None,
        decreases self.fuel(),
    {
        reveal_with_fuel(ParserState::synced, 1);
        if !boundary(self.current.kind) {
            let a = self.advanced();
            self.lemma_advanced();
            if !boundary(a.current.kind) {
                a.lemma_synced();
            }
        }
    }
}

} // verus!
