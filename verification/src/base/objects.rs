use crate::base::tree::constants;
use crate::base::types::{SimpleType, Type};
use crate::text::{copy_str, escape, escape_text, i64_to_string, join3, signed_decimal};
use vstd::prelude::*;

verus! {

/// The value of a literal. A real number is kept as the text it was
/// written with.
#[derive(Debug)]
pub enum Object {
    Int(i64),
    Real(String),
    String(String),
    Bool(bool),
    Array(Vec<Object>),
}

impl Object {
    /// The base type of a value that is no array.
    pub open spec fn simple_type(self) -> Option<SimpleType> {
        match self {
            Object::Int(_) => Some(SimpleType::Int),
            Object::Real(_) => Some(SimpleType::Real),
            Object::String(_) => Some(SimpleType::String),
            Object::Bool(_) => Some(SimpleType::Bool),
            Object::Array(_) => None,
        }
    }

    /// Whether the value is of the type `t`: of its base type, or an
    /// array whose elements all are of its base type.
    pub open spec fn has_type(self, t: Type) -> bool {
        match t {
            Type::Simple(s) => self.simple_type() == Some(s),
            Type::Array(b) => match self {
                Object::Array(items) => forall|i: int|
                    0 <= i < items@.len() ==> (#[trigger] items@[i]).simple_type() == Some(b),
                _ => false,
            },
        }
    }

    /// The value as it is written in the generated code.
    pub open spec fn c_lit(self) -> Seq<char>
        decreases self, 0nat,
    {
        match self {
            Object::Int(i) => signed_decimal(i as int),
            Object::Real(r) => r@,
            Object::String(s) => "\""@ + escape(s@) + "\""@,
            Object::Bool(b) => if b {
                "true"@
            } else {
                "false"@
            },
            Object::Array(a) => "{"@ + Self::c_lit_list(a@, 0) + "}"@,
        }
    }

    /// The values `items[i..]` as they are written in the generated
    /// code, with a comma between two of them.
    pub open spec fn c_lit_list(items: Seq<Object>, i: int) -> Seq<char>
        decreases items, items.len() - i,
    {
        if i < 0 || i >= items.len() {
            Seq::empty()
        } else if i + 1 == items.len() {
            items[i].c_lit()
        } else {
            items[i].c_lit() + ","@ + Self::c_lit_list(items, i + 1)
        }
    }

    /// The value as it is shown: the value and the name of its type.
    /// Of an array only the word `string` is shown.
    pub open spec fn text(self) -> Seq<char> {
        match self {
            Object::Int(v) => "(v: "@ + signed_decimal(v as int) + ", t: int)"@,
            Object::String(v) => "(v: "@ + v@ + ", t: string)"@,
            Object::Bool(v) => if v {
                "(v: true, t: bool)"@
            } else {
                "(v: false, t: bool)"@
            },
            Object::Array(_) => "(v: string, t: array)"@,
            Object::Real(v) => "(v: "@ + v@ + ", t: real)"@,
        }
    }

    /// The value as it is shown: the value and the name of its type.
    pub fn to_string(&self) -> (s: String)
        ensures
            s@ == self.text(),
    {
        match self {
            Object::Int(v) => {
                let val = i64_to_string(*v);
                join3("(v: ", val.as_str(), ", t: int)")
            },
            Object::String(v) => join3("(v: ", v.as_str(), ", t: string)"),
            Object::Bool(v) => if *v {
                copy_str("(v: true, t: bool)")
            } else {
                copy_str("(v: false, t: bool)")
            },
            Object::Array(_) => copy_str("(v: string, t: array)"),
            Object::Real(v) => join3("(v: ", v.as_str(), ", t: real)"),
        }
    }

    pub fn get_simple_type(&self) -> (t: Option<SimpleType>)
        ensures
            t == self.simple_type(),
    {
        match self {
            Object::Int(_) => Some(SimpleType::Int),
            Object::Real(_) => Some(SimpleType::Real),
            Object::String(_) => Some(SimpleType::String),
            Object::Bool(_) => Some(SimpleType::Bool),
            Object::Array(_) => None,
        }
    }

    fn list_to_c_lit(items: &Vec<Object>, i: usize) -> (s: String)
        ensures
            s@ == Self::c_lit_list(items@, i as int),
        decreases items, items.len() - i,
    {
        if i >= items.len() {
            String::new()
        } else if i + 1 == items.len() {
            items[i].to_c_lit()
        } else {
            let mut s = items[i].to_c_lit();
            s.append(",");
            let rest = Self::list_to_c_lit(items, i + 1);
            s.append(rest.as_str());
            s
        }
    }

    pub fn to_c_lit(&self) -> (s: String)
        ensures
            s@ == self.c_lit(),
        decreases self, 0nat,
    {
        match self {
            Object::Int(i) => i64_to_string(*i),
            Object::Real(r) => r.clone(),
            Object::String(t) => {
                let mut s = copy_str("\"");
                let e = escape_text(t.as_str());
                s.append(e.as_str());
                s.append("\"");
                s
            },
            Object::Bool(b) => {
                if *b {
                    copy_str("true")
                } else {
                    copy_str("false")
                }
            },
            Object::Array(a) => {
                let mut s = copy_str("{");
                let items = Self::list_to_c_lit(a, 0);
                s.append(items.as_str());
                s.append("}");
                s
            },
        }
    }
}

impl Object {
    /// Copies of the values of a list, in order.
    #[verifier::loop_isolation(false)]
    fn copy_list(items: &Vec<Object>) -> (r: Vec<Object>)
        ensures
            constants(r@) == constants(items@),
        decreases items, 0nat,
    {
        let mut r: Vec<Object> = Vec::new();
        let mut i: usize = 0;
        while i < items.len()
            invariant
                i <= items.len(),
                r@.len() == i,
                forall|j: int| 0 <= j < i ==> (#[trigger] r@[j]).constant() == items@[j].constant(),
            decreases items.len() - i,
        {
            let item = items[i].copy();
            r.push(item);
            i = i + 1;
        }
        assert(constants(r@) =~= constants(items@));
        r
    }

    /// A copy of the value, with all that it holds.
    pub fn copy(&self) -> (r: Object)
        ensures
            r.constant() == self.constant(),
        decreases self, 1nat,
    {
        match self {
            Object::Int(i) => Object::Int(*i),
            Object::Real(v) => Object::Real(v.clone()),
            Object::String(v) => Object::String(v.clone()),
            Object::Bool(b) => Object::Bool(*b),
            Object::Array(items) => Object::Array(Self::copy_list(items)),
        }
    }
}

impl Clone for Object {
    fn clone(&self) -> (r: Self)
        ensures
            r.constant() == self.constant(),
    {
        self.copy()
    }
}

} // verus!
