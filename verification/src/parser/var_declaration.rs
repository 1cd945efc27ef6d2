use crate::base::ast::ASTNode;
use crate::base::errors::SyntaxError;
use crate::base::symbol_table::{Declared, Entry, Symbol, SymbolType};
use crate::base::token::{Kind, Token};
use crate::base::types::Type;
use crate::parser::rules::declaration;
use crate::parser::state::{single_error, statement_parsed};
use crate::parser::syntax::{
    finish_declaration, read_declared_value, read_var_declaration, statement_as,
};
use crate::parser::Parser;
use crate::scanner::position::Position;
use vstd::prelude::*;

verus! {

/// The role of a declared variable: an array where its type is one.
pub open spec fn role_of(t: Type) -> SymbolType {
    match t {
        Type::Array(_) => SymbolType::Arr,
        Type::Simple(_) => SymbolType::Var,
    }
}

/// What the declaration of a variable says.
pub open spec fn variable(name: Seq<char>, r_type: Type, position: Position) -> Declared {
    Declared {
        entry: Entry { name, s_type: role_of(r_type), r_type, position },
        params: None,
    }
}

impl Parser {
    /// Declares a variable in current scope, being a function,
    /// procedure or main block scope, fails if already declared for
    /// this scope
    pub fn declare_variable(&mut self, lexeme: String, r_type: Type, position: Position) -> (r:
        Result<(), Vec<SyntaxError>>)
        ensures
            r is Ok <==> old(self)@.scopes.len() > 0 && !old(self)@.declares(lexeme@),
            match r {
                Ok(_) => final(self)@ == old(self)@.declared(variable(lexeme@, r_type, position)),
                Err(errors) => {
                    &&& final(self)@ == old(self)@
                    &&& single_error(
                        errors@,
                        old(self)@.error(Parser::cannot_declare(old(self)@, lexeme@)),
                    )
                },
            },
    {
        let s_type = match r_type {
            Type::Array(_) => SymbolType::Arr,
            Type::Simple(_) => SymbolType::Var,
        };
        self.declare(Symbol::plain(lexeme, s_type, r_type, position))
    }

    /// Ends the declaration of the variable `id`: an initial value must
    /// be of the declared type, and the name is declared in the
    /// innermost scope, if it can be.
    pub(crate) fn finish_declaration(&mut self, id: Token, var_type: Type, value: Option<ASTNode>) -> (r:
        Result<ASTNode, Vec<SyntaxError>>)
        requires
            value matches Some(v) ==> v.well_typed(),
        ensures
            final(self)@.declares_on(old(self)@) || !old(self)@.cursor.fits(old(self)@.source),
            match r {
                Ok(node) => {
                    &&& node.well_typed()
                    &&& node matches ASTNode::VariableDecl(d)
                    &&& d.id == id
                    &&& d.var_type == var_type
                    &&& old(self)@.scopes.len() > 0
                    &&& !old(self)@.declares(id.lexeme@)
                    &&& final(self)@.scopes == old(self)@.declared(
                        variable(id.lexeme@, var_type, id.position),
                    ).scopes
                },
                Err(errors) => errors@.len() == 1 && final(self)@.scopes == old(self)@.scopes,
            },
            statement_as(
                r,
                final(self)@,
                finish_declaration(
                    old(self)@,
                    id@,
                    var_type,
                    match value {
                        Some(v) => Some(crate::parser::grammar::summary(v)),
                        None => None,
                    },
                ),
            ),
    {
        reveal(finish_declaration);
        proof {
            if value is Some {
                crate::base::tree::lemma_tree_of_node(value->0);
            }
        }
        let name = id.lexeme.clone();
        let position = id.position;
        let node = self.lift(declaration(id, var_type, value))?;
        proof {
            if self@.scopes.len() > 0 && self@.cursor.fits(self@.source) {
                self@.lemma_declared(variable(name@, var_type, position));
            }
        }
        self.declare_variable(name, var_type, position)?;
        Ok(node)
    }

    /// Parse function for a variable declaration, returns either an
    /// ASTNode rapresenting the statement or a syntax error, that has
    /// to be processed by the caller function
    ///
    /// The current token is `var`; the statement ends with its `;`. An
    /// initial value, behind `:=`, must be of the declared type. The
    /// variable is declared in the innermost scope once the statement
    /// is complete, so its initial value cannot name it.
    pub fn parse_var_declaration(&mut self) -> (r: Result<ASTNode, Vec<SyntaxError>>)
        ensures
            statement_parsed(old(self)@, final(self)@, r),
            match r {
                Ok(node) => {
                    &&& node matches ASTNode::VariableDecl(d)
                    &&& old(self)@.scopes.len() > 0
                    &&& !old(self)@.declares(d.id.lexeme@)
                    &&& final(self)@.scopes == old(self)@.declared(
                        variable(d.id.lexeme@, d.var_type, d.id.position),
                    ).scopes
                },
                Err(_) => final(self)@.scopes == old(self)@.scopes,
            },
            statement_as(r, final(self)@, read_var_declaration(old(self)@)),
    {
        reveal(read_var_declaration);
        self.settled();
        self.expect_advance(Kind::Identifier)?;
        let id = self.current().clone();
        self.expect_advance(Kind::Colon)?;
        let var_type = self.parse_type()?;
        let ghost typed = self@;
        let r = self.parse_declared_value(id, var_type);
        proof {
            typed.lemma_reads_declares(old(self)@);
            self@.lemma_declares_trans(typed, old(self)@);
        }
        r
    }

    /// Parses what follows the type in the declaration of the variable
    /// `id`: `;`, or `:=`, an initial value of the type and `;`.
    pub fn parse_declared_value(&mut self, id: Token, var_type: Type) -> (r: Result<
        ASTNode,
        Vec<SyntaxError>,
    >)
        ensures
            final(self)@.declares_on(old(self)@),
            match r {
                Ok(node) => {
                    &&& node.well_typed()
                    &&& node matches ASTNode::VariableDecl(d)
                    &&& d.id == id
                    &&& d.var_type == var_type
                    &&& old(self)@.scopes.len() > 0
                    &&& !old(self)@.declares(id.lexeme@)
                    &&& final(self)@.scopes == old(self)@.declared(
                        variable(id.lexeme@, var_type, id.position),
                    ).scopes
                },
                Err(errors) => errors@.len() == 1 && final(self)@.scopes == old(self)@.scopes,
            },
            statement_as(r, final(self)@, read_declared_value(old(self)@, id@, var_type)),
    {
        reveal(read_declared_value);
        reveal(finish_declaration);
        self.settled();
        let value = match self.advance().kind {
            Kind::Semicolon => None,
            Kind::ColonEqual => {
                let v = match self.parse_expression() {
                    Ok(v) => v,
                    Err(errors) => {
                        proof {
                            self@.lemma_reads_declares(old(self)@);
                        }
                        return Err(errors);
                    },
                };
                match self.expect_current(Kind::Semicolon) {
                    Ok(_) => {},
                    Err(errors) => {
                        proof {
                            self@.lemma_reads_declares(old(self)@);
                        }
                        return Err(errors);
                    },
                }
                Some(v)
            },
            other => {
                proof {
                    self@.lemma_reads_declares(old(self)@);
                }
                return Err(self.unexpected_token_err(Kind::Semicolon, other));
            },
        };
        let ghost valued = self@;
        let r = self.finish_declaration(id, var_type, value);
        proof {
            valued.lemma_reads_declares(old(self)@);
            self@.lemma_declares_trans(valued, old(self)@);
        }
        r
    }
}

} // verus!
