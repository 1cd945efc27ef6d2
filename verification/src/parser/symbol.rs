use crate::base::ast::ASTNode;
use crate::base::errors::SyntaxError;
use crate::base::symbol_table::SymbolType;
use crate::base::token::Kind;
use crate::parser::grammar::{read_function_call, read_level, read_symbol, reads_as};
use crate::parser::rules::{array_ref, variable};
use crate::parser::Parser;
use crate::text::join2;
use vstd::prelude::*;

verus! {

impl Parser {
    /// Parses what the current token, an identifier, names in an
    /// expression: a call of a function, an element of an array, or a
    /// variable. It ends at the last token of what it has parsed.
    pub fn parse_symbol(&mut self) -> (r: Result<ASTNode, Vec<SyntaxError>>)
        ensures
            final(self)@.reads_on(old(self)@),
            match r {
                Ok(node) => node.well_typed(),
                Err(errors) => errors@.len() == 1,
            },
            reads_as(r, final(self)@, read_symbol(old(self)@)),
        decreases old(self)@.fuel(), 9nat,
    {
        reveal_with_fuel(read_symbol, 1);
        reveal_with_fuel(read_function_call, 1);
        reveal_with_fuel(read_level, 1);
        self.settled();
        let id = self.current().clone();
        let symbol = match self.get_symbol(id.lexeme.as_str()) {
            Some(s) => Some((s.s_type, s.r_type)),
            None => None,
        };
        match symbol {
            Some((SymbolType::Function, _)) => self.parse_function_call(),
            Some((SymbolType::Procedure, _)) => Err(
                self.fail(
                    "Procedures produce no value to return, cannot be used inside an expression",
                ),
            ),
            Some((SymbolType::Arr, r_type)) => {
                match self.advance().kind {
                    Kind::LeftSquare => {
                        let xpr = self.parse_expression()?;
                        self.expect_current(Kind::RightSquare)?;
                        self.lift(array_ref(id, r_type.internal(), xpr))
                    },
                    _ => {
                        self.go_back();
                        self.lift(variable(id, r_type, SymbolType::Arr))
                    },
                }
            },
            Some((s_type, r_type)) => self.lift(variable(id, r_type, s_type)),
            None => {
                let description = join2("Unknown symbol: ", id.lexeme.as_str());
                Err(self.fail(description.as_str()))
            },
        }
    }
}

} // verus!
