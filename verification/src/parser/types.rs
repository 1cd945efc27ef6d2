use crate::base::errors::SyntaxError;
use crate::base::token::Kind;
use crate::base::types::{SimpleType, Type};
use crate::parser::syntax::{read_array_type, read_type, value_as};
use crate::parser::Parser;
use crate::text::join2;
use vstd::prelude::*;

verus! {

/// The description of the error for a token that begins no type.
pub open spec fn no_type_message(found: Kind) -> Seq<char> {
    "Expected type declaration, found "@ + found.text()
}

/// The base type that a token of this kind names.
pub open spec fn named_type(k: Kind) -> Option<SimpleType> {
    match k {
        Kind::TString => Some(SimpleType::String),
        Kind::TInt => Some(SimpleType::Int),
        Kind::TBool => Some(SimpleType::Bool),
        Kind::TReal => Some(SimpleType::Real),
        _ => None,
    }
}

impl Parser {
    /// Parses what follows `array`: the size in square brackets, `of`,
    /// and the type of the elements, which must be a base type.
    fn parse_array_type(&mut self) -> (r: Result<Type, Vec<SyntaxError>>)
        ensures
            final(self)@.reads_on(old(self)@),
            match r {
                Ok(t) => t is Array && t.base() != SimpleType::Void,
                Err(errors) => errors@.len() == 1,
            },
            value_as(r, final(self)@, read_array_type(old(self)@)),
    {
        reveal(read_array_type);
        self.settled();
        self.expect_advance(Kind::LeftSquare)?;
        self.expect_advance(Kind::LitInt)?;
        self.expect_advance(Kind::RightSquare)?;
        self.expect_advance(Kind::Of)?;
        match self.advance().kind {
            Kind::TString => Ok(Type::Array(SimpleType::String)),
            Kind::TInt => Ok(Type::Array(SimpleType::Int)),
            Kind::TBool => Ok(Type::Array(SimpleType::Bool)),
            Kind::TReal => Ok(Type::Array(SimpleType::Real)),
            other => {
                let found = other.to_string();
                let description = join2("Expected type declaration, found ", found.as_str());
                Err(self.fail(description.as_str()))
            },
        }
    }

    /// Parses a type, which begins with the next token: the name of a
    /// base type, or `array [size] of` and the name of a base type.
    pub fn parse_type(&mut self) -> (r: Result<Type, Vec<SyntaxError>>)
        ensures
            final(self)@.reads_on(old(self)@),
            match r {
                Ok(t) => t.base() != SimpleType::Void,
                Err(errors) => errors@.len() == 1,
            },
            value_as(r, final(self)@, read_type(old(self)@)),
    {
        reveal(read_type);
        self.settled();
        match self.advance().kind {
            Kind::TString => Ok(Type::Simple(SimpleType::String)),
            Kind::TInt => Ok(Type::Simple(SimpleType::Int)),
            Kind::TBool => Ok(Type::Simple(SimpleType::Bool)),
            Kind::TReal => Ok(Type::Simple(SimpleType::Real)),
            Kind::TArray => self.parse_array_type(),
            other => {
                let found = other.to_string();
                let description = join2("Expected type declaration, found ", found.as_str());
                Err(self.fail(description.as_str()))
            },
        }
    }
}

} // verus!
