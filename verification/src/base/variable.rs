//! A value that stands for itself as an integer, as a text and as a
//! truth value at once.

use crate::text::{copy_str, i64_to_string, parse_signed, signed_decimal, signed_integer};
use vstd::prelude::*;

verus! {

/// Which of its three forms a variable was made from, or is taken as.
#[derive(Debug, Clone, Copy, PartialEq, Eq, Structural)]
pub enum Type {
    Boolean,
    String,
    Integer,
}

impl Type {
    /// The name of the type.
    pub open spec fn text(self) -> Seq<char> {
        match self {
            Type::Boolean => "Boolean"@,
            Type::String => "String"@,
            Type::Integer => "Integer"@,
        }
    }

    /// The name of the type.
    pub fn to_string(&self) -> (s: String)
        ensures
            s@ == self.text(),
    {
        match self {
            Type::Boolean => copy_str("Boolean"),
            Type::String => copy_str("String"),
            Type::Integer => copy_str("Integer"),
        }
    }
}

/// A value in its three forms.
#[derive(Debug)]
pub struct Variable {
    pub actual_type: Type,
    pub int_value: i64,
    pub string_value: String,
    pub bool_value: bool,
}

/// A variable with its text as a sequence of characters.
pub ghost struct VariableView {
    pub actual_type: Type,
    pub int_value: i64,
    pub string_value: Seq<char>,
    pub bool_value: bool,
}

impl View for Variable {
    type V = VariableView;

    open spec fn view(&self) -> VariableView {
        VariableView {
            actual_type: self.actual_type,
            int_value: self.int_value,
            string_value: self.string_value@,
            bool_value: self.bool_value,
        }
    }
}

impl Clone for Variable {
    fn clone(&self) -> (v: Self)
        ensures
            v == *self,
    {
        Variable {
            actual_type: self.actual_type,
            int_value: self.int_value,
            string_value: self.string_value.clone(),
            bool_value: self.bool_value,
        }
    }
}

/// The integer that a text stands for: the number that it writes, if
/// it writes one that fits; else 0 for the empty text and 1 for any
/// other.
pub open spec fn int_of_text(s: Seq<char>) -> i64 {
    match signed_integer(s) {
        Some(n) => n,
        None => if s.len() == 0 {
            0
        } else {
            1
        },
    }
}

impl Variable {
    /// An integer: its text is its decimal notation, and it is true
    /// unless it is 0.
    pub fn from_int(int_value_: i64) -> (v: Variable)
        ensures
            v@ == (VariableView {
                actual_type: Type::Integer,
                int_value: int_value_,
                string_value: signed_decimal(int_value_ as int),
                bool_value: int_value_ != 0,
            }),
    {
        Variable {
            actual_type: Type::Integer,
            int_value: int_value_,
            string_value: i64_to_string(int_value_),
            bool_value: int_value_ != 0,
        }
    }

    /// A text: as an integer it is the number that it writes, if it
    /// writes one, else 0 where it is empty and 1 where it is not; it
    /// is true unless it is empty.
    pub fn from_string(string_value: String) -> (v: Variable)
        ensures
            v@ == (VariableView {
                actual_type: Type::String,
                int_value: int_of_text(string_value@),
                string_value: string_value@,
                bool_value: string_value@.len() > 0,
            }),
    {
        let empty = string_value.as_str().unicode_len() == 0;
        let int_value = match parse_signed(string_value.as_str()) {
            Some(val) => val,
            None => {
                if empty {
                    0
                } else {
                    1
                }
            },
        };
        Variable { actual_type: Type::String, int_value, string_value, bool_value: !empty }
    }

    /// A truth value: as an integer it is 1 or 0, as a text `true` or
    /// `false`.
    pub fn from_bool(bool_value_: bool) -> (v: Variable)
        ensures
            v@ == (VariableView {
                actual_type: Type::Boolean,
                int_value: if bool_value_ {
                    1i64
                } else {
                    0i64
                },
                string_value: if bool_value_ {
                    "true"@
                } else {
                    "false"@
                },
                bool_value: bool_value_,
            }),
    {
        Variable {
            actual_type: Type::Boolean,
            int_value: if bool_value_ {
                1
            } else {
                0
            },
            string_value: if bool_value_ {
                copy_str("true")
            } else {
                copy_str("false")
            },
            bool_value: bool_value_,
        }
    }

    /// Takes the variable as an integer from now on.
    pub fn make_int(&mut self)
        ensures
            final(self)@ == (VariableView { actual_type: Type::Integer, ..old(self)@ }),
    {
        self.actual_type = Type::Integer;
    }

    /// Takes the variable as a text from now on.
    pub fn make_string(&mut self)
        ensures
            final(self)@ == (VariableView { actual_type: Type::String, ..old(self)@ }),
    {
        self.actual_type = Type::String;
    }

    /// Takes the variable as a truth value from now on.
    pub fn make_bool(&mut self)
        ensures
            final(self)@ == (VariableView { actual_type: Type::Boolean, ..old(self)@ }),
    {
        self.actual_type = Type::Boolean;
    }
}

} // verus!
