use crate::base::ast::{ASTNode, LiteralExprNode};
use crate::base::errors::SyntaxError;
use crate::base::objects::Object;
use crate::base::token::Kind;
use crate::base::types::{SimpleType, Type};
use crate::base::tree::constants;
use crate::parser::grammar::{read_array, read_elements, read_unary, reads_as};
use crate::parser::rules::array_element;
use crate::parser::Parser;
use crate::text::join2;
use vstd::prelude::*;

verus! {

impl Parser {
    /// Parses an array literal, from its `[`, which is the current
    /// token, to its `]`. Every element must be a literal, and all of
    /// one base type, which makes the type of the array.
    #[verifier::loop_isolation(false)]
    pub fn parse_array(&mut self) -> (r: Result<ASTNode, Vec<SyntaxError>>)
        ensures
            final(self)@.reads_on(old(self)@),
            match r {
                Ok(node) => {
                    &&& node.well_typed()
                    &&& node is Literal
                    &&& node.spec_r_type() is Array
                    &&& final(self)@.current.kind == Kind::RightSquare
                },
                Err(errors) => errors@.len() == 1,
            },
            reads_as(r, final(self)@, read_array(old(self)@)),
        decreases old(self)@.fuel(), 7nat,
    {
        reveal_with_fuel(read_array, 1);
        reveal_with_fuel(read_elements, 1);
        reveal_with_fuel(read_unary, 1);
        self.settled();
        self.expect_current(Kind::LeftSquare)?;
        let position = self.current().position;
        let mut values: Vec<Object> = Vec::new();
        assert(constants(values@) =~= Seq::<crate::base::tree::Constant>::empty());
        let mut base: Option<SimpleType> = None;
        loop
            invariant
                self@.reads_on(old(self)@),
                forall|i: int| 0 <= i < values@.len() ==> (#[trigger] values@[i]).simple_type() == base,
                base matches Some(b) ==> b != SimpleType::Void,
                values@.len() > 0 ==> base is Some,
                read_elements(self@, base, position, constants(values@)) == read_array(old(self)@),
            decreases self@.fuel(),
        {
            let element = self.parse_unary()?;
            let ghost node = element;
            let ghost before = values@;
            let ghost expected = base;
            let (value, t) = self.lift(array_element(element, base))?;
            assert(value.simple_type() == Some(t) && t != SimpleType::Void) by {
                assert(node.well_typed());
                assert(node matches ASTNode::Literal(l) && l.value == value && l.r_type
                    == Type::Simple(t));
            }
            values.push(value);
            base = Some(t);
            assert(constants(values@) =~= constants(before).push(value.constant()));
            assert forall|i: int| 0 <= i < values@.len() implies (#[trigger] values@[i]).simple_type()
                == base by {
                if i < before.len() {
                    assert(values@[i] == before[i]);
                    assert(before[i].simple_type() == expected);
                    assert(crate::parser::rules::element_fits(node, expected));
                }
            }
            match self.current().kind {
                Kind::Comma => {},
                Kind::RightSquare => {
                    return Ok(
                        ASTNode::Literal(
                            LiteralExprNode {
                                position,
                                value: Object::Array(values),
                                r_type: Type::Array(t),
                            },
                        ),
                    );
                },
                other => {
                    let found = other.to_string();
                    let description = join2("Unexpected token: ", found.as_str());
                    return Err(self.fail(description.as_str()));
                },
            }
        }
    }
}

} // verus!
