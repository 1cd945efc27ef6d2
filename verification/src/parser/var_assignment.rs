use crate::base::ast::ASTNode;
use crate::base::errors::SyntaxError;
use crate::base::symbol_table::SymbolType;
use crate::base::token::{Kind, Token};
use crate::base::types::SimpleType;
use crate::parser::rules::{array_ref, assignment, variable};
use crate::parser::syntax::{
    read_element_assignment, read_new_value, read_var_assignment, statement_as,
};
use crate::parser::Parser;
use crate::scanner::position::Position;
use crate::text::join2;
use vstd::prelude::*;

verus! {

impl Parser {
    /// Parses the new value of an assignment to `target` and its `;`,
    /// behind the `:=`, which is the current token, and makes the
    /// assignment.
    pub(crate) fn parse_new_value(&mut self, position: Position, target: ASTNode) -> (r: Result<
        ASTNode,
        Vec<SyntaxError>,
    >)
        requires
            target.is_place(),
            target.well_typed(),
        ensures
            final(self)@.reads_on(old(self)@),
            match r {
                Ok(node) => node.well_typed() && node is VarReassignment,
                Err(errors) => errors@.len() == 1,
            },
            statement_as(
                r,
                final(self)@,
                read_new_value(old(self)@, position, crate::parser::grammar::summary(target)),
            ),
    {
        reveal(read_new_value);
        self.settled();
        let new_val = self.parse_expression()?;
        self.expect_current(Kind::Semicolon)?;
        self.lift(assignment(position, target, new_val))
    }

    /// Parses an assignment to an element of the array `id`, whose
    /// elements are of the base type `base`, behind the `[`, which is
    /// the current token.
    pub fn parse_element_assignment(&mut self, id: Token, base: SimpleType) -> (r: Result<
        ASTNode,
        Vec<SyntaxError>,
    >)
        ensures
            final(self)@.reads_on(old(self)@),
            match r {
                Ok(node) => node.well_typed() && node is VarReassignment,
                Err(errors) => errors@.len() == 1,
            },
            statement_as(r, final(self)@, read_element_assignment(old(self)@, id@, base)),
    {
        reveal(read_element_assignment);
        self.settled();
        let position = id.position;
        let index = self.parse_expression()?;
        self.expect_current(Kind::RightSquare)?;
        let target = self.lift(array_ref(id, base, index))?;
        self.expect_advance(Kind::ColonEqual)?;
        self.parse_new_value(position, target)
    }

    /// Parser function for a variable assignment, reutrns an ASTNode
    /// that rapresents this statement
    ///
    /// The current token is the name that is assigned to; the
    /// statement ends with its `;`. The name must be that of a variable,
    /// of a parameter or of an array; for an array, either one element
    /// is assigned, behind an index in square brackets, or the whole
    /// array. The new value must be of the type of what is assigned.
    pub fn parse_var_assignment(&mut self) -> (r: Result<ASTNode, Vec<SyntaxError>>)
        ensures
            final(self)@.reads_on(old(self)@),
            match r {
                Ok(node) => node.well_typed() && node is VarReassignment,
                Err(errors) => errors@.len() == 1,
            },
            statement_as(r, final(self)@, read_var_assignment(old(self)@)),
    {
        reveal(read_var_assignment);
        self.settled();
        let id = self.current().clone();
        let symbol = match self.get_symbol(id.lexeme.as_str()) {
            Some(s) => Some((s.s_type, s.r_type)),
            None => None,
        };
        let position = id.position;
        match symbol {
            Some((SymbolType::Arr, r_type)) => {
                match self.advance().kind {
                    Kind::LeftSquare => self.parse_element_assignment(id, r_type.internal()),
                    Kind::ColonEqual => {
                        let target = self.lift(variable(id, r_type, SymbolType::Arr))?;
                        self.parse_new_value(position, target)
                    },
                    other => {
                        let found = other.to_string();
                        let description = join2(
                            "Expected either array referenceing or array redeclaration, found: ",
                            found.as_str(),
                        );
                        Err(self.fail(description.as_str()))
                    },
                }
            },
            Some((SymbolType::Function, _)) => Err(
                self.fail(
                    "Symbol alread exists and is associated either to a funciton or to a procedure",
                ),
            ),
            Some((SymbolType::Procedure, _)) => Err(
                self.fail(
                    "Symbol alread exists and is associated either to a funciton or to a procedure",
                ),
            ),
            Some((s_type, r_type)) => {
                let target = self.lift(variable(id, r_type, s_type))?;
                self.expect_advance(Kind::ColonEqual)?;
                self.parse_new_value(position, target)
            },
            None => {
                let description = join2("Use of undeclared variable ", id.lexeme.as_str());
                Err(self.fail(description.as_str()))
            },
        }
    }
}

} // verus!
