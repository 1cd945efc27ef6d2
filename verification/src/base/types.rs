use crate::text::{copy_str, join2};
use vstd::prelude::*;

verus! {

/// The base types of the language.
#[derive(PartialEq, Eq, Structural, Debug, Clone, Copy)]
pub enum SimpleType {
    Int,
    String,
    Bool,
    Real,
    Void,
}

impl SimpleType {
    /// The name of the type in the generated code.
    pub open spec fn c_type(self) -> Seq<char> {
        match self {
            SimpleType::Int => "int"@,
            SimpleType::String => "*char"@,
            SimpleType::Bool => "bool"@,
            SimpleType::Real => "float"@,
            SimpleType::Void => "void"@,
        }
    }

    /// The name of the type in the source language.
    pub open spec fn text(self) -> Seq<char> {
        match self {
            SimpleType::Int => "int"@,
            SimpleType::String => "string"@,
            SimpleType::Bool => "bool"@,
            SimpleType::Real => "real"@,
            SimpleType::Void => "void"@,
        }
    }

    /// Whether values of the type are numbers.
    pub open spec fn numeric(self) -> bool {
        self == SimpleType::Int || self == SimpleType::Real
    }

    pub fn to_c_type(&self) -> (s: String)
        ensures
            s@ == self.c_type(),
    {
        match self {
            SimpleType::Int => copy_str("int"),
            SimpleType::String => copy_str("*char"),
            SimpleType::Bool => copy_str("bool"),
            SimpleType::Real => copy_str("float"),
            SimpleType::Void => copy_str("void"),
        }
    }

    pub fn to_string(&self) -> (s: String)
        ensures
            s@ == self.text(),
    {
        match self {
            SimpleType::Int => copy_str("int"),
            SimpleType::String => copy_str("string"),
            SimpleType::Bool => copy_str("bool"),
            SimpleType::Real => copy_str("real"),
            SimpleType::Void => copy_str("void"),
        }
    }

    pub fn is_numeric(&self) -> (b: bool)
        ensures
            b == self.numeric(),
    {
        match self {
            SimpleType::Int => true,
            SimpleType::Real => true,
            _ => false,
        }
    }
}

/// A static type: a base type, or an array of a base type.
#[derive(PartialEq, Eq, Structural, Debug, Clone, Copy)]
pub enum Type {
    Simple(SimpleType),
    Array(SimpleType),
}

impl Type {
    /// The base type: of an array, that of its elements.
    pub open spec fn base(self) -> SimpleType {
        match self {
            Type::Simple(s) => s,
            Type::Array(s) => s,
        }
    }

    /// The name of the type in the generated code.
    pub open spec fn c_type(self) -> Seq<char> {
        match self {
            Type::Simple(s) => s.c_type(),
            Type::Array(a) => "*"@ + a.c_type(),
        }
    }

    /// The name of the type in the source language.
    pub open spec fn text(self) -> Seq<char> {
        match self {
            Type::Simple(s) => s.text(),
            Type::Array(a) => "array of "@ + a.text(),
        }
    }

    pub fn internal(&self) -> (s: SimpleType)
        ensures
            s == self.base(),
    {
        match self {
            Type::Simple(s) => *s,
            Type::Array(s) => *s,
        }
    }

    pub fn to_c_type(&self) -> (s: String)
        ensures
            s@ == self.c_type(),
    {
        match self {
            Type::Simple(s) => s.to_c_type(),
            Type::Array(a) => {
                let inner = a.to_c_type();
                join2("*", inner.as_str())
            },
        }
    }

    pub fn to_string(&self) -> (s: String)
        ensures
            s@ == self.text(),
    {
        match self {
            Type::Simple(s) => s.to_string(),
            Type::Array(a) => {
                let inner = a.to_string();
                join2("array of ", inner.as_str())
            },
        }
    }
}

} // verus!
