use crate::base::ast::{ASTNode, LiteralExprNode};
use crate::base::errors::SyntaxError;
use crate::base::objects::Object;
use crate::base::symbol_table::SymbolType;
use crate::base::token::Kind;
use crate::base::types::{SimpleType, Type};
use crate::parser::rules::{binary, negation};
use crate::parser::grammar::{
    read_array, read_bracket, read_function_call, read_group, read_level, read_literal,
    read_named, read_negation, read_rest, read_symbol, read_unary, reads_as, summary,
};
use crate::parser::state::expression_parsed;
use crate::parser::Parser;
use crate::text::{join2, parse_integer};
use vstd::prelude::*;

verus! {

impl Parser {
    /// Parses the operand of a negation and makes the negation. The
    /// current token is the `!`.
    pub fn parse_negation(&mut self) -> (r: Result<ASTNode, Vec<SyntaxError>>)
        ensures
            final(self)@.reads_on(old(self)@),
            match r {
                Ok(node) => node.well_typed() && final(self)@.fuel() < old(self)@.fuel(),
                Err(errors) => errors@.len() == 1,
            },
            reads_as(r, final(self)@, read_negation(old(self)@)),
        decreases old(self)@.fuel(), 20nat,
    {
        reveal_with_fuel(read_negation, 1);
        reveal_with_fuel(read_unary, 1);
        self.settled();
        let bang = self.current().clone();
        let operand = self.parse_unary()?;
        self.lift(negation(bang, operand))
    }

    /// Parses what the current token, an identifier, names in an
    /// expression, and reads the token behind it.
    pub fn parse_named(&mut self) -> (r: Result<ASTNode, Vec<SyntaxError>>)
        ensures
            final(self)@.reads_on(old(self)@),
            match r {
                Ok(node) => node.well_typed(),
                Err(errors) => errors@.len() == 1,
            },
            reads_as(r, final(self)@, read_named(old(self)@)),
        decreases old(self)@.fuel(), 21nat,
    {
        reveal_with_fuel(read_named, 1);
        reveal_with_fuel(read_function_call, 1);
        reveal_with_fuel(read_symbol, 1);
        self.settled();
        let role = match self.get_symbol(self.current().lexeme.as_str()) {
            Some(s) => Some(s.s_type),
            None => None,
        };
        match role {
            Some(SymbolType::Function) => {
                let to_return = self.parse_function_call()?;
                self.advance();
                Ok(to_return)
            },
            Some(SymbolType::Procedure) => Err(
                self.fail(
                    "Procedures produce no value to return, cannot be used inside an expression",
                ),
            ),
            Some(_) => {
                let sym = self.parse_symbol()?;
                self.advance();
                Ok(sym)
            },
            None => {
                let description = join2(
                    "Unknown symbol in expression: ",
                    self.current().lexeme.as_str(),
                );
                Err(self.fail(description.as_str()))
            },
        }
    }

    /// Makes the literal that the current token is, and reads the token
    /// behind it.
    pub fn parse_literal(&mut self) -> (r: Result<ASTNode, Vec<SyntaxError>>)
        ensures
            final(self)@.reads_on(old(self)@),
            match r {
                Ok(node) => node.well_typed() && node is Literal,
                Err(errors) => errors@.len() == 1,
            },
            crate::parser::grammar::is_literal(old(self)@.current.kind) ==> reads_as(
                r,
                final(self)@,
                read_literal(old(self)@),
            ),
    {
        self.settled();
        let token = self.current().clone();
        let (value, r_type) = match token.kind {
            Kind::True => (Object::Bool(true), SimpleType::Bool),
            Kind::False => (Object::Bool(false), SimpleType::Bool),
            Kind::LitString => (Object::String(token.lexeme), SimpleType::String),
            Kind::LitReal => (Object::Real(token.lexeme), SimpleType::Real),
            _ => match parse_integer(token.lexeme.as_str()) {
                Some(value) => (Object::Int(value), SimpleType::Int),
                None => {
                    return Err(self.fail("Integer literal out of range"));
                },
            },
        };
        self.advance();
        Ok(
            ASTNode::Literal(
                LiteralExprNode { position: token.position, value, r_type: Type::Simple(r_type) },
            ),
        )
    }

    /// Parses an expression in parentheses, behind its `(`, which is
    /// the current token, and reads the token behind its `)`.
    pub fn parse_group(&mut self) -> (r: Result<ASTNode, Vec<SyntaxError>>)
        ensures
            final(self)@.reads_on(old(self)@),
            match r {
                Ok(node) => node.well_typed(),
                Err(errors) => errors@.len() == 1,
            },
            reads_as(r, final(self)@, read_group(old(self)@)),
        decreases old(self)@.fuel(), 22nat,
    {
        reveal_with_fuel(read_group, 1);
        reveal_with_fuel(read_level, 1);
        self.settled();
        let node = self.parse_expression()?;
        if self.matches(Kind::RightParen) {
            self.advance();
            Ok(node)
        } else {
            Err(self.fail("Missing closing bracket"))
        }
    }

    /// Parses an array literal, from its `[`, which is the current
    /// token, and reads the token behind its `]`.
    pub fn parse_bracket(&mut self) -> (r: Result<ASTNode, Vec<SyntaxError>>)
        ensures
            final(self)@.reads_on(old(self)@),
            match r {
                Ok(node) => node.well_typed(),
                Err(errors) => errors@.len() == 1,
            },
            reads_as(r, final(self)@, read_bracket(old(self)@)),
        decreases old(self)@.fuel(), 23nat,
    {
        reveal_with_fuel(read_bracket, 1);
        reveal_with_fuel(read_array, 1);
        self.settled();
        let array = self.parse_array()?;
        self.advance();
        Ok(array)
    }

    /// Parses a primary expression: a literal, a name, an element of an
    /// array, a call of a function, an expression in parentheses, an
    /// array literal, or the negation of a primary expression. It ends
    /// with the current token behind the expression.
    pub fn parse_unary(&mut self) -> (r: Result<ASTNode, Vec<SyntaxError>>)
        ensures
            expression_parsed(old(self)@, final(self)@, r),
            reads_as(r, final(self)@, read_unary(old(self)@)),
        decreases old(self)@.fuel(), 1nat,
    {
        reveal_with_fuel(read_unary, 1);
        reveal_with_fuel(read_negation, 1);
        reveal_with_fuel(read_named, 1);
        reveal_with_fuel(read_group, 1);
        reveal_with_fuel(read_bracket, 1);
        self.settled();
        match self.advance().kind {
            Kind::Bang => self.parse_negation(),
            Kind::Identifier => self.parse_named(),
            Kind::True | Kind::False | Kind::LitString | Kind::LitInt | Kind::LitReal => {
                self.parse_literal()
            },
            Kind::LeftParen => self.parse_group(),
            Kind::LeftSquare => self.parse_bracket(),
            other => {
                let found = other.to_string();
                let description = join2("Unexpected token ", found.as_str());
                Err(self.fail(description.as_str()))
            },
        }
    }

    /// Parses a chain of `*` and `/` over primary expressions.
    #[verifier::loop_isolation(false)]
    pub fn parse_factor(&mut self) -> (r: Result<ASTNode, Vec<SyntaxError>>)
        ensures
            expression_parsed(old(self)@, final(self)@, r),
            reads_as(r, final(self)@, read_level(1, old(self)@)),
        decreases old(self)@.fuel(), 2nat,
    {
        reveal_with_fuel(read_level, 1);
        reveal_with_fuel(read_rest, 1);
        reveal_with_fuel(read_unary, 1);
        assert(read_level(0, old(self)@) == read_unary(old(self)@));
        let mut node = self.parse_unary()?;
        loop
            invariant
                node.well_typed(),
                self@.reads_on(old(self)@),
                self@.fuel() < old(self)@.fuel(),
                !old(self)@.begins_unknown(),
                read_rest(1, self@, summary(node)) == read_level(1, old(self)@),
            decreases self@.fuel(),
        {
            proof {
                assert(read_level(0, self@) == read_unary(self@));
            }
            let kind = self.current().kind;
            if kind != Kind::Slash && kind != Kind::Star {
                return Ok(node);
            }
            let op = self.current().clone();
            let right = self.parse_unary()?;
            node = self.lift(binary(op, node, right))?;
        }
    }

    /// Parses a chain of `+` and `-` over factors.
    #[verifier::loop_isolation(false)]
    pub fn parse_term(&mut self) -> (r: Result<ASTNode, Vec<SyntaxError>>)
        ensures
            expression_parsed(old(self)@, final(self)@, r),
            reads_as(r, final(self)@, read_level(2, old(self)@)),
        decreases old(self)@.fuel(), 3nat,
    {
        reveal_with_fuel(read_level, 1);
        reveal_with_fuel(read_rest, 1);
        reveal_with_fuel(read_unary, 1);
        assert(read_level(0, old(self)@) == read_unary(old(self)@));
        let mut node = self.parse_factor()?;
        loop
            invariant
                node.well_typed(),
                self@.reads_on(old(self)@),
                self@.fuel() < old(self)@.fuel(),
                !old(self)@.begins_unknown(),
                read_rest(2, self@, summary(node)) == read_level(2, old(self)@),
            decreases self@.fuel(),
        {
            proof {
                assert(read_level(0, self@) == read_unary(self@));
            }
            let kind = self.current().kind;
            if kind != Kind::Minus && kind != Kind::Plus {
                return Ok(node);
            }
            let op = self.current().clone();
            let right = self.parse_factor()?;
            node = self.lift(binary(op, node, right))?;
        }
    }

    /// Parses a chain of comparisons over terms.
    #[verifier::loop_isolation(false)]
    pub fn parse_comparison(&mut self) -> (r: Result<ASTNode, Vec<SyntaxError>>)
        ensures
            expression_parsed(old(self)@, final(self)@, r),
            reads_as(r, final(self)@, read_level(3, old(self)@)),
        decreases old(self)@.fuel(), 4nat,
    {
        reveal_with_fuel(read_level, 1);
        reveal_with_fuel(read_rest, 1);
        reveal_with_fuel(read_unary, 1);
        assert(read_level(0, old(self)@) == read_unary(old(self)@));
        let mut node = self.parse_term()?;
        loop
            invariant
                node.well_typed(),
                self@.reads_on(old(self)@),
                self@.fuel() < old(self)@.fuel(),
                !old(self)@.begins_unknown(),
                read_rest(3, self@, summary(node)) == read_level(3, old(self)@),
            decreases self@.fuel(),
        {
            proof {
                assert(read_level(0, self@) == read_unary(self@));
            }
            let kind = self.current().kind;
            if kind != Kind::Greater && kind != Kind::GreaterEqual && kind != Kind::Less && kind
                != Kind::LessEqual {
                return Ok(node);
            }
            let op = self.current().clone();
            let right = self.parse_term()?;
            node = self.lift(binary(op, node, right))?;
        }
    }

    /// Parses a chain of `=` over comparisons.
    #[verifier::loop_isolation(false)]
    pub fn parse_equality(&mut self) -> (r: Result<ASTNode, Vec<SyntaxError>>)
        ensures
            expression_parsed(old(self)@, final(self)@, r),
            reads_as(r, final(self)@, read_level(4, old(self)@)),
        decreases old(self)@.fuel(), 5nat,
    {
        reveal_with_fuel(read_level, 1);
        reveal_with_fuel(read_rest, 1);
        reveal_with_fuel(read_unary, 1);
        assert(read_level(0, old(self)@) == read_unary(old(self)@));
        let mut node = self.parse_comparison()?;
        loop
            invariant
                node.well_typed(),
                self@.reads_on(old(self)@),
                self@.fuel() < old(self)@.fuel(),
                !old(self)@.begins_unknown(),
                read_rest(4, self@, summary(node)) == read_level(4, old(self)@),
            decreases self@.fuel(),
        {
            proof {
                assert(read_level(0, self@) == read_unary(self@));
            }
            if !self.matches(Kind::Equal) {
                return Ok(node);
            }
            let op = self.current().clone();
            let right = self.parse_comparison()?;
            node = self.lift(binary(op, node, right))?;
        }
    }

    /// Parses an expression: a chain of `and` over equalities. It ends
    /// with the current token behind the expression.
    #[verifier::loop_isolation(false)]
    pub fn parse_expression(&mut self) -> (r: Result<ASTNode, Vec<SyntaxError>>)
        ensures
            expression_parsed(old(self)@, final(self)@, r),
            reads_as(r, final(self)@, read_level(5, old(self)@)),
        decreases old(self)@.fuel(), 6nat,
    {
        reveal_with_fuel(read_level, 1);
        reveal_with_fuel(read_rest, 1);
        reveal_with_fuel(read_unary, 1);
        assert(read_level(0, old(self)@) == read_unary(old(self)@));
        let mut node = self.parse_equality()?;
        loop
            invariant
                node.well_typed(),
                self@.reads_on(old(self)@),
                self@.fuel() < old(self)@.fuel(),
                !old(self)@.begins_unknown(),
                read_rest(5, self@, summary(node)) == read_level(5, old(self)@),
            decreases self@.fuel(),
        {
            proof {
                assert(read_level(0, self@) == read_unary(self@));
            }
            if !self.matches(Kind::And) {
                return Ok(node);
            }
            let op = self.current().clone();
            let right = self.parse_equality()?;
            node = self.lift(binary(op, node, right))?;
        }
    }
}

} // verus!
