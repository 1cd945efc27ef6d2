pub mod array;
pub mod assert_stmt;
pub mod block;
pub mod expressions;
pub mod function;
pub mod grammar;
pub mod if_stmt;
pub mod laws;
pub mod main;
pub mod print;
pub mod programs;
pub mod progress;
pub mod procedure;
pub mod read;
pub mod rules;
pub mod shapes;
pub mod state;
pub mod statements;
pub mod symbol;
pub mod syntax;
pub mod types;
pub mod var_assignment;
pub mod var_declaration;
pub mod while_loop;

use crate::base::ast::{ASTNode, BlockNode, FunctionDeclNode, ProcedureDeclNode, ProgramNameNode, ProgramNode};
use crate::base::errors::{SyntaxError, SyntaxErrorView};
use crate::base::symbol_table::{declared_for, Declared, Symbol, SymbolTable};
use crate::base::token::{Kind, Token};
use crate::base::tree::{function_trees, lemma_tree_of_node, procedure_trees, Tree};
use crate::base::types::Type;
use crate::base::symbol_table::SymbolType;
use crate::parser::state::{boundary, resolve, resolve_from, single_error, ParserState};
use crate::parser::syntax::{
    begun, lemma_single_error, nothing, outcome_as, program_result, program_step, read_global_statement,
    read_globals, read_program, resumed, Found,
};
use crate::scanner::lexis::{fetch, lemma_next_moves, next};
use crate::scanner::position::Position;
use crate::scanner::Scanner;
use crate::text::{copy_str, join3, join4, join5, signed_decimal};
use vstd::prelude::*;

verus! {

/// A recursive-descent parser with one token of lookahead and one token
/// that can be given back.
#[derive(Debug)]
pub struct Parser {
    scanner: Scanner,
    previous: Token,
    current: Token,
    next: Option<Token>,
    syntax_errors: Vec<SyntaxError>,
    context: Vec<SymbolTable>,
    closed: bool,
}

/// Errors with their texts as sequences of characters.
pub open spec fn error_views(errors: Seq<SyntaxError>) -> Seq<SyntaxErrorView> {
    Seq::new(errors.len(), |i: int| errors[i]@)
}

/// The description of the error for a token of another kind than the
/// one that the grammar asks for.
pub open spec fn unexpected_message(expected: Kind, found: Kind) -> Seq<char> {
    "Expected token: "@ + expected.text() + ", found "@ + found.text()
}

/// The description of the error for a name that its scope declares
/// already: it gives the name, and the line and column of the
/// declaration that the scope holds for it.
pub open spec fn redeclared_message(name: Seq<char>, held: Position) -> Seq<char> {
    "Declaration of an already declared variable: "@ + name + ", previously declared at "@
        + signed_decimal(held.line as int) + ":"@ + signed_decimal(held.col as int)
}

/// What the parser needs of a symbol once its scope may change: the
/// declared name, the role and the type, and the parameters of a
/// function or a procedure.
#[derive(Debug)]
pub struct Resolved {
    pub name: String,
    pub s_type: SymbolType,
    pub r_type: Type,
    pub position: Position,
    pub params: Option<SymbolTable>,
}

impl Resolved {
    /// Whether this is what `s` says.
    pub open spec fn is_of(self, s: Declared) -> bool {
        &&& self.name@ == s.entry.name
        &&& self.s_type == s.entry.s_type
        &&& self.r_type == s.entry.r_type
        &&& self.position == s.entry.position
        &&& match s.params {
            Some(t) => self.params matches Some(p) && p.entries() == t,
            None => self.params is None,
        }
    }
}

/// The parts of a program that a parse has met so far.
#[derive(Debug)]
pub struct ProgramParts {
    pub program_name: Option<ProgramNameNode>,
    pub functions: Vec<FunctionDeclNode>,
    pub procedures: Vec<ProcedureDeclNode>,
    pub main_block: Option<BlockNode>,
}

impl ProgramParts {
    /// The parts as plain values.
    pub open spec fn found(self) -> Found {
        Found {
            name: match self.program_name {
                Some(n) => Some(n.name@),
                None => None,
            },
            functions: function_trees(self.functions@),
            procedures: procedure_trees(self.procedures@),
            main: match self.main_block {
                Some(b) => Some(ASTNode::Block(b).tree()),
                None => None,
            },
        }
    }

    /// Whether the parts obey the type rules.
    pub open spec fn well_typed(self) -> bool {
        &&& forall|i: int|
            0 <= i < self.functions@.len() ==> (#[trigger] self.functions@[i]).block.well_typed()
        &&& forall|i: int|
            0 <= i < self.procedures@.len() ==> (#[trigger] self.procedures@[i]).block.well_typed()
        &&& self.main_block matches Some(b) ==> forall|i: int|
            0 <= i < b.statements@.len() ==> (#[trigger] b.statements@[i]).well_typed()
    }

    pub fn new() -> (parts: ProgramParts)
        ensures
            parts.well_typed(),
            parts.found() == nothing(),
    {
        let parts = ProgramParts {
            program_name: None,
            functions: Vec::new(),
            procedures: Vec::new(),
            main_block: None,
        };
        assert(function_trees(parts.functions@) =~= Seq::<Tree>::empty());
        assert(procedure_trees(parts.procedures@) =~= Seq::<Tree>::empty());
        parts
    }
}

proof fn lemma_error_views_push(errors: Seq<SyntaxError>, e: SyntaxError)
    ensures
        error_views(errors.push(e)) == error_views(errors).push(e@),
{
    assert(error_views(errors.push(e)) =~= error_views(errors).push(e@));
}

impl View for Parser {
    type V = ParserState;

    closed spec fn view(&self) -> ParserState {
        ParserState {
            source: self.scanner.source_text(),
            cursor: self.scanner.cursor(),
            previous: self.previous@,
            current: self.current@,
            pending: match self.next {
                Some(t) => Some(t@),
                None => None,
            },
            errors: error_views(self.syntax_errors@),
            scopes: Seq::new(self.context@.len(), |i: int| self.context@[i].declarations()),
            closed: self.closed,
        }
    }
}

impl Parser {
    /// The scanner of a parser stands within its source. This holds of
    /// every parser; the function does nothing when it runs.
    pub fn settled(&self)
        ensures
            self@.cursor.fits(self@.source),
    {
        proof {
            use_type_invariant(&self.scanner);
            self.scanner.lemma_fits();
        }
    }

    pub fn new(src: String) -> (p: Parser)
        ensures
            p@ == begun(src@),
    {
        let mut context: Vec<SymbolTable> = Vec::new();
        context.push(SymbolTable::new());
        let p = Parser {
            scanner: Scanner::new(src),
            previous: Token {
                kind: Kind::InitParser,
                lexeme: String::new(),
                position: Position::new(0, 0, 0),
            },
            current: Token {
                kind: Kind::InitParser,
                lexeme: String::new(),
                position: Position::new(0, 0, 0),
            },
            next: None,
            syntax_errors: Vec::new(),
            context,
            closed: false,
        };
        assert(p@.errors =~= Seq::empty());
        assert(p@.scopes =~= seq![Seq::<Declared>::empty()]);
        p
    }

    /// Adds errors to the errors recorded so far.
    pub fn record(&mut self, errors: Vec<SyntaxError>)
        ensures
            final(self)@ == (ParserState {
                errors: old(self)@.errors + error_views(errors@),
                ..old(self)@
            }),
    {
        let mut errors = errors;
        let ghost added = errors@;
        let ghost before = self.syntax_errors@;
        self.syntax_errors.append(&mut errors);
        assert(error_views(before + added) =~= error_views(before) + error_views(added));
    }

    /// A copy of the errors recorded so far.
    pub fn copy_errors(&self) -> (errors: Vec<SyntaxError>)
        ensures
            error_views(errors@) == self@.errors,
            errors@ == self.recorded(),
    {
        let mut errors: Vec<SyntaxError> = Vec::new();
        let mut i: usize = 0;
        while i < self.syntax_errors.len()
            invariant
                i <= self.syntax_errors.len(),
                errors@ == self.syntax_errors@.take(i as int),
            decreases self.syntax_errors.len() - i,
        {
            errors.push(self.syntax_errors[i].clone());
            assert(self.syntax_errors@.take(i as int).push(self.syntax_errors@[i as int])
                =~= self.syntax_errors@.take(i as int + 1));
            i = i + 1;
        }
        assert(self.syntax_errors@.take(self.syntax_errors@.len() as int) =~= self.syntax_errors@);
        errors
    }

    /// The errors recorded so far, as a value of specifications.
    pub closed spec fn recorded(&self) -> Seq<SyntaxError> {
        self.syntax_errors@
    }

    /// One error that stands for the whole source, as the result of a
    /// parse that found no error but not all the parts of a program.
    fn incomplete(&self, description: &str) -> (errors: Vec<SyntaxError>)
        ensures
            errors@.len() == 1,
            error_views(errors@) == crate::parser::syntax::incomplete(self@.source, description@),
    {
        let mut errors: Vec<SyntaxError> = Vec::new();
        errors.push(
            SyntaxError::new(Position::new(0, 0, 0), self.scanner.line(0), copy_str(description)),
        );
        assert(error_views(errors@) =~= crate::parser::syntax::incomplete(
            self@.source,
            description@,
        ));
        errors
    }

    /// Goes on after a global statement that failed: after a block
    /// nothing is skipped; else tokens are skipped up to a boundary,
    /// which is given back where it begins a global statement.
    pub fn resume(&mut self)
        ensures
            final(self)@ == resumed(old(self)@),
            final(self)@.source == old(self)@.source,
            final(self)@.scopes == old(self)@.scopes,
            old(self)@.errors.is_prefix_of(final(self)@.errors),
    {
        if !self.is_closed() {
            self.syncronize();  // goes to next statement
        }
    }

    /// Reads one global statement more and keeps what it is. It says
    /// whether the program ends here: at the end of the source, and
    /// where the step has read nothing.
    pub(crate) fn global_step(&mut self, parts: &mut ProgramParts) -> (stop: bool)
        requires
            old(parts).well_typed(),
        ensures
            final(parts).well_typed(),
            final(self)@.source == old(self)@.source,
            final(self)@.scopes.len() == old(self)@.scopes.len(),
            old(self)@.errors.is_prefix_of(final(self)@.errors),
            program_step(old(self)@, old(parts).found()) == (final(self)@, final(parts).found()),
            stop == ((read_global_statement(old(self)@).result matches Ok(t) && t is Eof)
                || final(self)@.fuel() >= old(self)@.fuel()),
    {
        reveal(program_step);
        let before = self.mark();
        let mut at_end = false;
        match self.parse_global_statement() {
            Ok(ASTNode::ProgramName(node)) => {
                if parts.program_name.is_some() {
                    let errors = self.fail("Program name declared twice");
                    proof {
                        lemma_single_error(errors@, self@.error("Program name declared twice"@));
                    }
                    self.record(errors);
                } else {
                    parts.program_name = Some(node);
                }
            },
            Ok(ASTNode::ProcedureDecl(node)) => {
                assert(ASTNode::ProcedureDecl(node).well_typed());
                let ghost before = parts.procedures@;
                let ghost tree = ASTNode::ProcedureDecl(node).tree();
                parts.procedures.push(node);
                assert(procedure_trees(parts.procedures@) =~= procedure_trees(before).push(tree));
            },
            Ok(ASTNode::FunctionDecl(node)) => {
                assert(ASTNode::FunctionDecl(node).well_typed());
                let ghost before = parts.functions@;
                let ghost tree = ASTNode::FunctionDecl(node).tree();
                parts.functions.push(node);
                assert(function_trees(parts.functions@) =~= function_trees(before).push(tree));
            },
            Ok(ASTNode::Block(node)) => {
                assert(ASTNode::Block(node).well_typed());
                if parts.main_block.is_some() {
                    let errors = self.fail("Main block declared twice");
                    proof {
                        lemma_single_error(errors@, self@.error("Main block declared twice"@));
                    }
                    self.record(errors);
                } else {
                    parts.main_block = Some(node);
                }
            },
            Ok(ASTNode::EofStmt(_)) => {
                at_end = true;
            },
            Ok(other) => {
                let found = other.to_string();
                let description = join3(
                    "Found an ",
                    found.as_str(),
                    " in global scope wich makes no sense",
                );
                let errors = self.fail(description.as_str());
                proof {
                    lemma_tree_of_node(other);
                    lemma_single_error(
                        errors@,
                        self@.error(
                            "Found an "@ + other.text() + " in global scope wich makes no sense"@,
                        ),
                    );
                }
                self.record(errors);
            },
            Err(errors) => {
                self.record(errors);
                self.resume();
            },
        }
        at_end || self.mark() >= before
    }

    /// The result of a parse whose global statements were read.
    pub(crate) fn finish_program(&self, parts: ProgramParts) -> (r: Result<ASTNode, Vec<SyntaxError>>)
        requires
            parts.well_typed(),
        ensures
            match r {
                Ok(node) => node is Program && node.well_typed() && self@.errors.len() == 0,
                Err(errors) => errors@.len() >= 1 && (self@.errors.len() > 0 ==> error_views(
                    errors@,
                ) == self@.errors),
            },
            match program_result(self@, parts.found()) {
                Ok(t) => r matches Ok(node) && node.tree() == t,
                Err(es) => r matches Err(errors) && error_views(errors@) == es,
            },
    {
        if self.syntax_errors.len() > 0 {
            return Err(self.copy_errors());
        }
        assert(self@.errors.len() == 0);
        match parts.program_name {
            Some(name) => match parts.main_block {
                Some(main) => Ok(
                    ASTNode::Program(
                        ProgramNode {
                            program_name: name,
                            functions: parts.functions,
                            procedures: parts.procedures,
                            main_block: main,
                        },
                    ),
                ),
                None => Err(self.incomplete("Main block is nowhere to be found")),
            },
            None => Err(self.incomplete("Found no program name in first line")),
        }
    }

    /// Main parse function, gives the source to the scanner and
    /// iteratively looks at tokens, returning an AST that rapresents
    /// the program
    ///
    /// A program is its name, the declarations of its functions and
    /// procedures, and one main block. After a statement that fails,
    /// tokens are skipped up to the next boundary and parsing goes on,
    /// so that all errors are found. If any error was recorded, of the
    /// scanner or of the parser, the result is the list of all errors;
    /// a tree is handed out only where there was none, and it obeys the
    /// type rules.
    #[verifier::loop_isolation(false)]
    pub fn parse(&mut self) -> (r: Result<ASTNode, Vec<SyntaxError>>)
        ensures
            final(self)@.source == old(self)@.source,
            final(self)@.scopes.len() == old(self)@.scopes.len(),
            old(self)@.errors.is_prefix_of(final(self)@.errors),
            match r {
                Ok(node) => node is Program && node.well_typed() && final(self)@.errors.len() == 0,
                Err(errors) => errors@.len() >= 1 && (final(self)@.errors.len() > 0 ==> error_views(
                    errors@,
                ) == final(self)@.errors),
            },
            outcome_as(r, final(self)@, read_program(old(self)@)),
    {
        reveal_with_fuel(read_globals, 1);
        let mut parts = ProgramParts::new();
        loop
            invariant
                self@.source == old(self)@.source,
                self@.scopes.len() == old(self)@.scopes.len(),
                old(self)@.errors.is_prefix_of(self@.errors),
                parts.well_typed(),
                read_globals(self@, parts.found()) == read_globals(old(self)@, nothing()),
            decreases self@.fuel(),
        {
            if self.is_at_end() {
                return self.finish_program(parts);
            }
            let stop = self.global_step(&mut parts);
            if stop {
                return self.finish_program(parts);
            }
        }
    }

    /// The errors of the scanner that were recorded so far.
    pub fn errors(&self) -> (r: &Vec<SyntaxError>)
        ensures
            error_views(r@) == self@.errors,
    {
        &self.syntax_errors
    }

    /// The current token.
    pub fn current(&self) -> (t: &Token)
        ensures
            t@ == self@.current,
    {
        &self.current
    }

    /// The number of scopes that are open.
    pub fn depth(&self) -> (n: usize)
        ensures
            n == self@.scopes.len(),
    {
        self.context.len()
    }

    /// Checks weather the current token kind matches the given one
    pub fn matches(&self, kind_to_match: Kind) -> (b: bool)
        ensures
            b == (self@.current.kind == kind_to_match),
    {
        self.current.kind == kind_to_match
    }

    /// Returns weather the parsing process is finished, that is if
    /// the given source is all consumed
    pub fn is_at_end(&self) -> (b: bool)
        ensures
            b == (self@.current.kind == Kind::Eof),
    {
        self.matches(Kind::Eof)
    }

    /// The work that is left, as a number.
    pub fn mark(&self) -> (m: u128)
        ensures
            m == self@.fuel(),
    {
        let left = self.scanner.remaining();
        proof {
            use_type_invariant(&self.scanner);
            self.scanner.lemma_fits();
        }
        let given_back: u128 = match &self.next {
            Some(t) => if t.kind != Kind::Eof {
                1
            } else {
                0
            },
            None => 0,
        };
        2 * left + given_back
    }

    /// Advances by one the tokens via the scanner function
    #[verifier::loop_isolation(false)]
    pub fn advance(&mut self) -> (t: Token)
        ensures
            final(self)@ == old(self)@.advanced(),
            t == final(self).current_token(),
            t@ == final(self)@.current,
            final(self)@.reads_on(old(self)@),
            final(self)@.pending is None,
            t.kind != Kind::Eof ==> final(self)@.fuel() < old(self)@.fuel(),
            t.kind != Kind::Eof && old(self)@.pending is None ==> final(self)@.fuel() + 2 <= old(
                self,
            )@.fuel(),
            old(self)@.pending matches Some(p) ==> t@ == p,
            final(self)@.closed == old(self)@.closed,
    {
        reveal(ParserState::advanced);
        self.settled();
        proof {
            self@.lemma_advanced();
        }
        self.previous = self.current.clone();
        match self.next.take() {
            Some(reff) => {
                self.current = reff;
                return self.current.clone();
            },
            None => {},
        }
        let ghost src = self.scanner.source_text();
        let ghost start = self.scanner.cursor();
        let ghost before = error_views(self.syntax_errors@);
        assert(before + fetch(src, start).errors == old(self)@.errors + fetch(src, start).errors);
        loop
            invariant
                self.scanner.source_text() == src,
                self.next is None,
                self.previous@ == old(self).current@,
                self.context == old(self).context,
                self.closed == old(self).closed,
                fetch(src, self.scanner.cursor()).token == fetch(src, start).token,
                fetch(src, self.scanner.cursor()).cursor == fetch(src, start).cursor,
                error_views(self.syntax_errors@) + fetch(src, self.scanner.cursor()).errors
                    == before + fetch(src, start).errors,
                before == old(self)@.errors,
                src == old(self)@.source,
                start == old(self)@.cursor,
                old(self)@.pending is None,
            decreases self.scanner.cursor().remaining(src),
        {
            let ghost c = self.scanner.cursor();
            let ghost errs = self.syntax_errors@;
            proof {
                use_type_invariant(&self.scanner);
                self.scanner.lemma_fits();
                lemma_next_moves(src, c);
            }
            match self.scanner.next_token() {
                Err(e) => {
                    proof {
                        lemma_error_views_push(errs, e);
                        let f = fetch(src, next(src, c).cursor);
                        assert(error_views(errs).push(e@) + f.errors =~= error_views(errs) + (
                        seq![e@] + f.errors));
                    }
                    self.syntax_errors.push(e);
                },
                Ok(token) => {
                    proof {
                        assert(error_views(errs) + Seq::<SyntaxErrorView>::empty() =~= error_views(
                            errs,
                        ));
                    }
                    self.current = token;
                    return self.current.clone();
                },
            }
        }
    }

    /// The current token, as a value of specifications.
    pub closed spec fn current_token(&self) -> Token {
        self.current
    }

    /// Restores the previous token as the current, but can be only done once
    pub fn go_back(&mut self)
        ensures
            final(self)@ == old(self)@.went_back(),
            final(self)@.source == old(self)@.source,
            final(self)@.errors == old(self)@.errors,
            final(self)@.scopes == old(self)@.scopes,
            final(self)@.cursor == old(self)@.cursor,
            final(self)@.fuel() <= old(self)@.fuel() + 1,
            old(self)@.pending is Some && old(self)@.pending->0.kind != Kind::Eof ==> final(self)@.fuel()
                <= old(self)@.fuel(),
            old(self)@.current.kind == Kind::Eof ==> final(self)@.fuel() <= old(self)@.fuel(),
    {
        self.next = Some(self.current.clone());
        self.current = self.previous.clone();
    }

    /// Utility function to push an error to the error stack
    pub fn error_at_current(&mut self, error: &SyntaxError)
        ensures
            final(self)@ == (ParserState { errors: old(self)@.errors.push(error@), ..old(self)@ }),
    {
        proof {
            lemma_error_views_push(self.syntax_errors@, *error);
        }
        self.syntax_errors.push(error.clone());
    }

    /// A syntax error at the current token, with the line that the
    /// scanner is on.
    pub fn syntax_error(&self, description: &str) -> (e: SyntaxError)
        ensures
            e@ == self@.error(description@),
    {
        SyntaxError::new(self.current.position, self.scanner.curr_line(), copy_str(description))
    }

    /// One syntax error at the current token, as the result of a
    /// function that failed.
    pub fn fail(&self, description: &str) -> (errors: Vec<SyntaxError>)
        ensures
            single_error(errors@, self@.error(description@)),
    {
        let mut errors: Vec<SyntaxError> = Vec::new();
        errors.push(self.syntax_error(description));
        errors
    }

    /// Notes whether the statement that failed last was read to its
    /// end, as a block is whose errors lie within it: after such a
    /// statement no tokens are skipped.
    pub fn set_closed(&mut self, closed: bool)
        ensures
            final(self)@ == (ParserState { closed, ..old(self)@ }),
    {
        self.closed = closed;
    }

    /// Whether the statement that failed last was read to its end.
    pub fn is_closed(&self) -> (b: bool)
        ensures
            b == self@.closed,
    {
        self.closed
    }

    /// The token read before the current one.
    pub fn previous(&self) -> (t: &Token)
        ensures
            t@ == self@.previous,
    {
        &self.previous
    }

    /// Reads a token, which must be of the given kind.
    pub fn expect_advance(&mut self, kind: Kind) -> (r: Result<(), Vec<SyntaxError>>)
        ensures
            final(self)@ == old(self)@.advanced(),
            final(self)@.reads_on(old(self)@),
            final(self)@.pending is None,
            final(self)@.current.kind != Kind::Eof ==> final(self)@.fuel() < old(self)@.fuel(),
            match r {
                Ok(_) => final(self)@.current.kind == kind,
                Err(errors) => final(self)@.current.kind != kind && single_error(
                    errors@,
                    final(self)@.error(unexpected_message(kind, final(self)@.current.kind)),
                ),
            },
    {
        let found = self.advance().kind;
        if found == kind {
            Ok(())
        } else {
            Err(self.unexpected_token_err(kind, found))
        }
    }

    /// Checks that the current token is of the given kind.
    pub fn expect_current(&mut self, kind: Kind) -> (r: Result<(), Vec<SyntaxError>>)
        ensures
            final(self)@ == old(self)@,
            match r {
                Ok(_) => old(self)@.current.kind == kind,
                Err(errors) => old(self)@.current.kind != kind && single_error(
                    errors@,
                    old(self)@.error(unexpected_message(kind, old(self)@.current.kind)),
                ),
            },
    {
        let found = self.current.kind;
        if found == kind {
            Ok(())
        } else {
            Err(self.unexpected_token_err(kind, found))
        }
    }

    /// Removes next statements, called by the parser to recover from
    /// an error in the current statement and go to the next one
    ///
    /// Tokens are skipped up to a boundary. A `;`, an `end` and the end
    /// of the source stay the current token; a `function`, a
    /// `procedure` and a `begin` are given back, so that they are read
    /// next.
    pub fn syncronize(&mut self)
        ensures
            final(self)@ == old(self)@.resynced(),
            final(self)@.source == old(self)@.source,
            final(self)@.scopes == old(self)@.scopes,
            final(self)@.cursor.fits(final(self)@.source),
            old(self)@.errors.is_prefix_of(final(self)@.errors),
            boundary(final(self)@.current.kind) || (final(self)@.pending matches Some(t)
                && boundary(t.kind)),
    {
        self.skip_to_boundary();
        if self.matches(Kind::Function) || self.matches(Kind::Procedure) || self.matches(
            Kind::Begin,
        ) {
            self.go_back();
        }
    }

    /// Skips tokens up to a boundary, which stays the current token: a
    /// `;`, an `end`, a `function`, a `procedure`, a `begin`, or the
    /// end of the source.
    #[verifier::loop_isolation(false)]
    pub fn skip_to_boundary(&mut self)
        ensures
            final(self)@ == old(self)@.synced(),
            final(self)@.reads_on(old(self)@),
            boundary(final(self)@.current.kind),
            !boundary(old(self)@.current.kind) ==> final(self)@.pending is None,
    {
        reveal_with_fuel(ParserState::synced, 1);
        self.settled();
        proof {
            self@.lemma_synced();
        }
        loop
            invariant
                self@.synced() == old(self)@.synced(),
                self@.cursor.fits(self@.source),
            decreases self@.fuel(),
        {
            if Self::is_boundary(self.current.kind) {
                return ;
            }
            proof {
                self@.lemma_advanced();
            }
            self.advance();
            if Self::is_boundary(self.current.kind) {
                return ;
            }
        }
    }

    /// Whether a token of this kind ends the skipping after an error.
    pub fn is_boundary(k: Kind) -> (b: bool)
        ensures
            b == boundary(k),
    {
        match k {
            Kind::Semicolon => true,
            Kind::Eof => true,
            Kind::End => true,
            Kind::Function => true,
            Kind::Procedure => true,
            Kind::Begin => true,
            _ => false,
        }
    }

    /// Generates a syntax error for an unexpected token.
    pub fn unexpected_token_err(&mut self, expected_token: Kind, found_token: Kind) -> (errors: Vec<
        SyntaxError,
    >)
        ensures
            final(self)@ == old(self)@,
            single_error(errors@, old(self)@.error(unexpected_message(expected_token, found_token))),
    {
        let expected = expected_token.to_string();
        let found = found_token.to_string();
        let description = join4("Expected token: ", expected.as_str(), ", found ", found.as_str());
        self.fail(description.as_str())
    }

    /// Looks a name up in the open scopes, the innermost first.
    pub fn get_symbol(&self, name: &str) -> (r: Option<&Symbol>)
        ensures
            match r {
                Some(s) => resolve(self@.scopes, name@) == Some(s.declared()),
                None => resolve(self@.scopes, name@) is None,
            },
    {
        let mut i: usize = self.context.len();
        while i > 0
            invariant
                i <= self.context.len(),
                resolve_from(self@.scopes, name@, i as int - 1) == resolve(self@.scopes, name@),
            decreases i,
        {
            i = i - 1;
            match self.context[i].find(name) {
                Some(s) => {
                    return Some(s);
                },
                None => {},
            }
        }
        None
    }

    /// Looks a name up in the open scopes, the innermost first, and
    /// copies what the symbol says.
    pub fn resolve_symbol(&self, name: &str) -> (r: Option<Resolved>)
        ensures
            match r {
                Some(c) => resolve(self@.scopes, name@) matches Some(s) && c.is_of(s),
                None => resolve(self@.scopes, name@) is None,
            },
    {
        match self.get_symbol(name) {
            Some(s) => Some(
                Resolved {
                    name: s.name.clone(),
                    s_type: s.s_type,
                    r_type: s.r_type,
                    position: s.position,
                    params: match &s.args {
                        Some(t) => Some(t.copy_entries()),
                        None => None,
                    },
                },
            ),
            None => None,
        }
    }

    /// Turns the description of an error into a syntax error at the
    /// current token.
    pub fn lift<T>(&self, r: Result<T, String>) -> (lifted: Result<T, Vec<SyntaxError>>)
        ensures
            match r {
                Ok(v) => lifted == Ok::<T, Vec<SyntaxError>>(v),
                Err(d) => lifted matches Err(errors) && single_error(errors@, self@.error(d@)),
            },
    {
        match r {
            Ok(v) => Ok(v),
            Err(d) => Err(self.fail(d.as_str())),
        }
    }

    /// Opens a scope that holds the symbols of `table`.
    pub fn enter_scope(&mut self, table: SymbolTable)
        ensures
            final(self)@ == (ParserState {
                scopes: old(self)@.scopes.push(table.declarations()),
                ..old(self)@
            }),
    {
        self.context.push(table);
        assert(self@.scopes =~= old(self)@.scopes.push(table.declarations()));
    }

    /// Closes the innermost scope and hands its symbols out.
    pub fn exit_scope(&mut self) -> (r: Option<SymbolTable>)
        ensures
            match r {
                Some(t) => old(self)@.scopes.len() > 0 && t.declarations() == old(
                    self,
                )@.scopes.last() && final(self)@ == (ParserState {
                    scopes: old(self)@.scopes.drop_last(),
                    ..old(self)@
                }),
                None => old(self)@.scopes.len() == 0 && final(self)@ == old(self)@,
            },
    {
        let r = self.context.pop();
        assert(self@.scopes =~= old(self)@.scopes.take(self.context@.len() as int));
        r
    }

    /// The description of the error for a name that cannot be declared
    /// in the state `s`: there is no scope, or the innermost scope
    /// declares the name already.
    pub open spec fn cannot_declare(s: ParserState, name: Seq<char>) -> Seq<char> {
        if s.scopes.len() == 0 {
            "Declaring variable in global scope is not permitted"@
        } else {
            match declared_for(s.scopes.last(), name) {
                Some(first) => redeclared_message(name, first.entry.position),
                None => Seq::empty(),
            }
        }
    }

    /// Declares a symbol in the innermost scope. A name that this scope
    /// declares already is an error, which gives the place of the
    /// declaration that the scope holds; what outer scopes declare does
    /// not matter.
    pub fn declare(&mut self, sym: Symbol) -> (r: Result<(), Vec<SyntaxError>>)
        ensures
            r is Ok <==> old(self)@.scopes.len() > 0 && !old(self)@.declares(sym.name@),
            match r {
                Ok(_) => final(self)@ == old(self)@.declared(sym.declared()),
                Err(errors) => {
                    &&& final(self)@ == old(self)@
                    &&& single_error(errors@, old(self)@.error(Self::cannot_declare(old(self)@, sym.name@)))
                },
            },
    {
        if self.context.len() == 0 {
            return Err(self.fail("Declaring variable in global scope is not permitted"));
        }
        let top = self.context.len() - 1;
        match self.context[top].find(sym.name.as_str()) {
            Some(first) => {
                let line = crate::text::i64_to_string(first.position.line);
                let col = crate::text::i64_to_string(first.position.col);
                let description = join5(
                    "Declaration of an already declared variable: ",
                    sym.name.as_str(),
                    ", previously declared at ",
                    line.as_str(),
                    ":",
                );
                let description = crate::text::join2(description.as_str(), col.as_str());
                Err(self.fail(description.as_str()))
            },
            None => {
                let ghost before = self@;
                let mut table = self.context.pop().unwrap();
                table.push(sym);
                self.context.push(table);
                assert(self@.scopes =~= before.scopes.drop_last().push(
                    before.scopes.last().push(sym.declared()),
                ));
                Ok(())
            },
        }
    }
}

} // verus!
