//! The static rules of the language: what the parser checks before it
//! makes a node. Each function makes the node where the rule holds, and
//! otherwise gives the description of the error.

use crate::base::ast::{
    boolean, integer, void, ASTNode, ArrayRefExpr, AssertStmtNode, BinaryExprNode, BinaryExprType,
    CallArg, ExpressionStmtNode, FunctionCallNode, PrintStmtNode, ProcedureCallNode, ReadStmtNode,
    UnaryExprNode, VarReassignmentExprNode, VariableDeclNode, VariableNameExpressionNode,
};
use crate::base::objects::Object;
use crate::base::symbol_table::{Entry, SymbolTable, SymbolType};
use crate::base::token::Token;
use crate::base::types::{SimpleType, Type};
use crate::scanner::position::Position;
use crate::text::{copy_str, join4, join6};
use vstd::prelude::*;

verus! {

/// The description of the error for operands that an operator does not
/// take: it names the operator and both operand types.
pub open spec fn operands_message(op: BinaryExprType, l: Type, r: Type) -> Seq<char> {
    "Mismatching types in "@ + op.text() + " expression: "@ + l.text() + " and "@ + r.text()
}

/// Makes a binary expression, if the operand types are a legal
/// combination for the operator.
pub fn binary(op: Token, left: ASTNode, right: ASTNode) -> (r: Result<ASTNode, String>)
    ensures
        match BinaryExprType::of_kind(op.kind) {
            Some(t) => match t.result(left.spec_r_type(), right.spec_r_type()) {
                Some(rt) => r == Ok::<ASTNode, String>(
                    ASTNode::BinaryExpression(
                        BinaryExprNode {
                            position: op.position,
                            left: Box::new(left),
                            op,
                            op_type: t,
                            right: Box::new(right),
                            r_type: rt,
                        },
                    ),
                ),
                None => r matches Err(d) && d@ == operands_message(
                    t,
                    left.spec_r_type(),
                    right.spec_r_type(),
                ),
            },
            None => r matches Err(d) && d@ == "Not a binary operator"@,
        },
        left.well_typed() && right.well_typed() ==> (r matches Ok(n) ==> n.well_typed()),
{
    match BinaryExprType::from_kind(op.kind) {
        Some(t) => {
            let l = left.r_type();
            let rr = right.r_type();
            match t.result_type(l, rr) {
                Some(rt) => Ok(
                    ASTNode::BinaryExpression(
                        BinaryExprNode {
                            position: op.position,
                            left: Box::new(left),
                            op,
                            op_type: t,
                            right: Box::new(right),
                            r_type: rt,
                        },
                    ),
                ),
                None => {
                    let name = t.to_string();
                    let lt = l.to_string();
                    let rt = rr.to_string();
                    Err(
                        join6(
                            "Mismatching types in ",
                            name.as_str(),
                            " expression: ",
                            lt.as_str(),
                            " and ",
                            rt.as_str(),
                        ),
                    )
                },
            }
        },
        None => Err(copy_str("Not a binary operator")),
    }
}

/// The description of the error for an expression that must be `Bool`
/// and is not: it says where, and gives the type found.
pub open spec fn not_boolean_message(place: Seq<char>, found: Type) -> Seq<char> {
    "Expected boolean expression as "@ + place + ", found "@ + found.text()
}

/// Checks that an expression is `Bool`, as the guard of `if` and
/// `while`, the operand of `!` and that of `assert` must be.
pub fn check_boolean(node: &ASTNode, place: &str) -> (r: Result<(), String>)
    ensures
        match r {
            Ok(_) => node.spec_r_type() == boolean(),
            Err(d) => node.spec_r_type() != boolean() && d@ == not_boolean_message(
                place@,
                node.spec_r_type(),
            ),
        },
{
    let t = node.r_type();
    if t == Type::Simple(SimpleType::Bool) {
        Ok(())
    } else {
        let found = t.to_string();
        Err(join4("Expected boolean expression as ", place, ", found ", found.as_str()))
    }
}

/// Makes the negation of a `Bool` expression.
pub fn negation(bang: Token, operand: ASTNode) -> (r: Result<ASTNode, String>)
    ensures
        if operand.spec_r_type() == boolean() {
            r == Ok::<ASTNode, String>(
                ASTNode::UnaryExpression(
                    UnaryExprNode {
                        position: bang.position,
                        operand: bang,
                        expression: Box::new(operand),
                        r_type: boolean(),
                    },
                ),
            )
        } else {
            r matches Err(d) && d@ == not_boolean_message("operand of !"@, operand.spec_r_type())
        },
        operand.well_typed() ==> (r matches Ok(n) ==> n.well_typed()),
{
    match check_boolean(&operand, "operand of !") {
        Ok(_) => Ok(
            ASTNode::UnaryExpression(
                UnaryExprNode {
                    position: bang.position,
                    operand: bang,
                    expression: Box::new(operand),
                    r_type: Type::Simple(SimpleType::Bool),
                },
            ),
        ),
        Err(d) => Err(d),
    }
}

/// The description of the error for an element of an array literal
/// that does not fit: one that is no literal, a literal that is no value
/// of a base type, or one of another base type than the elements
/// before it. `text` is what the element is called in messages.
pub open spec fn element_error(literal: bool, r_type: Type, text: Seq<char>) -> Seq<char> {
    if !literal {
        "Unexpected array value: "@ + text
    } else if r_type is Array {
        "Unexpected type of value: "@ + r_type.text()
    } else {
        "Inconsistent types in literal vector declaration"@
    }
}

/// What an element of an array literal must be: a literal of a base
/// type, and of the base type of the elements before it, if there are
/// any.
pub open spec fn element_fits(node: ASTNode, expected: Option<SimpleType>) -> bool {
    &&& node matches ASTNode::Literal(l)
    &&& l.r_type matches Type::Simple(t)
    &&& (expected matches Some(e) ==> e == t)
}

/// Takes the value out of an element of an array literal. An element
/// that is no literal of a base type, or is of another base type than
/// the elements before it, is an error.
pub fn array_element(node: ASTNode, expected: Option<SimpleType>) -> (r: Result<
    (Object, SimpleType),
    String,
>)
    ensures
        match r {
            Ok((value, t)) => {
                &&& element_fits(node, expected)
                &&& node matches ASTNode::Literal(l)
                &&& l.value == value
                &&& l.r_type == Type::Simple(t)
            },
            Err(d) => {
                &&& !element_fits(node, expected)
                &&& d@ == element_error(node is Literal, node.spec_r_type(), node.text())
            },
        },
{
    match node {
        ASTNode::Literal(l) => match l.r_type {
            Type::Simple(t) => {
                let fits = match expected {
                    Some(e) => e == t,
                    None => true,
                };
                if fits {
                    Ok((l.value, t))
                } else {
                    Err(copy_str("Inconsistent types in literal vector declaration"))
                }
            },
            Type::Array(_) => {
                let found = l.r_type.to_string();
                Err(crate::text::join2("Unexpected type of value: ", found.as_str()))
            },
        },
        other => {
            let found = other.to_string();
            Err(crate::text::join2("Unexpected array value: ", found.as_str()))
        },
    }
}

/// The types of the arguments of a call, in order.
pub open spec fn types_of(args: Seq<ASTNode>) -> Seq<Type> {
    Seq::new(args.len(), |i: int| args[i].spec_r_type())
}

/// Whether arguments of these types fit the parameters: as many, and
/// each of the type of the parameter at its place.
pub open spec fn types_fit(params: Seq<Entry>, types: Seq<Type>) -> bool {
    &&& params.len() == types.len()
    &&& forall|i: int| 0 <= i < types.len() ==> #[trigger] types[i] == params[i].r_type
}

/// Whether the arguments of a call fit the parameters: as many, and
/// each of the type of the parameter at its place.
pub open spec fn arguments_fit(params: Seq<Entry>, args: Seq<ASTNode>) -> bool {
    types_fit(params, types_of(args))
}

/// The place of the first argument at or after `start` that is not of
/// the type of its parameter.
pub open spec fn first_misfit(params: Seq<Entry>, types: Seq<Type>, start: int) -> Option<int>
    decreases types.len() - start,
{
    if start < 0 || start >= types.len() || start >= params.len() {
        None
    } else if types[start] != params[start].r_type {
        Some(start)
    } else {
        first_misfit(params, types, start + 1)
    }
}

/// The description of the error for a call with another number of
/// arguments than the callee has parameters.
pub open spec fn arity_message(expected: nat, found: nat) -> Seq<char> {
    "Call with wrong number of parameters: expected "@ + crate::text::decimal(expected)
        + ", found "@ + crate::text::decimal(found)
}

/// The description of the error for an argument of another type than
/// its parameter: it gives the place of the argument, counted from 1,
/// and both types.
pub open spec fn argument_message(place: int, expected: Type, found: Type) -> Seq<char> {
    "Mismatching types in call: argument "@ + crate::text::decimal((place + 1) as nat)
        + " is "@ + found.text() + ", expected "@ + expected.text()
}

/// The description of the error that a call with these arguments
/// gives, where they do not fit the parameters.
pub open spec fn call_error(params: Seq<Entry>, types: Seq<Type>) -> Seq<char> {
    if params.len() != types.len() {
        arity_message(params.len(), types.len())
    } else {
        match first_misfit(params, types, 0) {
            Some(k) => argument_message(k, params[k].r_type, types[k]),
            None => Seq::empty(),
        }
    }
}

fn reversed(v: Vec<ASTNode>) -> (r: Vec<ASTNode>)
    ensures
        r@.len() == v@.len(),
        forall|j: int| 0 <= j < r@.len() ==> r@[j] == v@[v@.len() - 1 - j],
{
    let mut v = v;
    let ghost whole = v@;
    let mut r: Vec<ASTNode> = Vec::new();
    while v.len() > 0
        invariant
            v@ == whole.take(v@.len() as int),
            r@.len() + v@.len() == whole.len(),
            forall|j: int| 0 <= j < r@.len() ==> r@[j] == whole[whole.len() - 1 - j],
        decreases v.len(),
    {
        let x = v.pop().unwrap();
        r.push(x);
    }
    r
}

/// Pairs the arguments of a call with the names of the parameters. A
/// call with another number of arguments than there are parameters is
/// an error, and so is the first argument that is not of the type of
/// its parameter.
pub fn pair_arguments(params: &SymbolTable, args: Vec<ASTNode>) -> (r: Result<Vec<CallArg>, String>)
    ensures
        match r {
            Ok(pairs) => {
                &&& arguments_fit(params.entries(), args@)
                &&& pairs@.len() == args@.len()
                &&& forall|i: int|
                    0 <= i < pairs@.len() ==> (#[trigger] pairs@[i]).value == args@[i] && pairs@[i].name@
                        == params.entries()[i].name
            },
            Err(d) => {
                &&& !arguments_fit(params.entries(), args@)
                &&& d@ == call_error(params.entries(), types_of(args@))
            },
        },
{
    let n = args.len();
    if params.len() != n {
        let expected = crate::text::usize_to_string(params.len());
        let found = crate::text::usize_to_string(n);
        return Err(
            join4(
                "Call with wrong number of parameters: expected ",
                expected.as_str(),
                ", found ",
                found.as_str(),
            ),
        );
    }
    let mut i: usize = 0;
    while i < n
        invariant
            i <= n,
            n == args@.len(),
            n == params.symbols@.len(),
            params.entries().len() == n,
            first_misfit(params.entries(), types_of(args@), 0) == first_misfit(
                params.entries(),
                types_of(args@),
                i as int,
            ),
            forall|j: int| 0 <= j < i ==> (#[trigger] types_of(args@)[j]) == params.entries()[j].r_type,
        decreases n - i,
    {
        let found = args[i].r_type();
        let expected = params.symbols[i].r_type;
        assert(types_of(args@)[i as int] == found);
        if found != expected {
            let place = crate::text::usize_to_string(i + 1);
            let f = found.to_string();
            let e = expected.to_string();
            return Err(
                join6(
                    "Mismatching types in call: argument ",
                    place.as_str(),
                    " is ",
                    f.as_str(),
                    ", expected ",
                    e.as_str(),
                ),
            );
        }
        i = i + 1;
    }
    let ghost whole = args@;
    let mut rest = reversed(args);
    let mut pairs: Vec<CallArg> = Vec::new();
    let mut k: usize = 0;
    while k < n
        invariant
            k <= n,
            n == whole.len(),
            n == params.symbols@.len(),
            params.entries().len() == n,
            rest@.len() == n - k,
            forall|j: int| 0 <= j < rest@.len() ==> rest@[j] == whole[n - 1 - j],
            pairs@.len() == k,
            forall|j: int|
                0 <= j < k ==> (#[trigger] pairs@[j]).value == whole[j] && pairs@[j].name@
                    == params.entries()[j].name,
        decreases n - k,
    {
        let value = rest.pop().unwrap();
        pairs.push(CallArg { name: params.symbols[k].name.clone(), value });
        k = k + 1;
    }
    Ok(pairs)
}

/// Makes a call of the function `target`, which returns `r_type` and
/// has the parameters `params`. A call whose arguments fit the
/// parameters always succeeds, and its type is `r_type`; any other
/// call is an error.
pub fn function_call(
    position: Position,
    target: String,
    r_type: Type,
    params: &SymbolTable,
    args: Vec<ASTNode>,
) -> (r: Result<ASTNode, String>)
    ensures
        r is Ok <==> arguments_fit(params.entries(), args@),
        match r {
            Ok(node) => {
                &&& node matches ASTNode::FunctionCallStmt(f)
                &&& node.spec_r_type() == r_type
                &&& f.position == position
                &&& f.target == target
                &&& f.args@.len() == args@.len()
                &&& forall|i: int|
                    0 <= i < f.args@.len() ==> (#[trigger] f.args@[i]).value == args@[i] && f.args@[i].name@
                        == params.entries()[i].name
            },
            Err(d) => d@ == call_error(params.entries(), types_of(args@)),
        },
        (forall|i: int| 0 <= i < args@.len() ==> (#[trigger] args@[i]).well_typed()) ==> (r matches Ok(
            n,
        ) ==> n.well_typed()),
{
    match pair_arguments(params, args) {
        Ok(pairs) => Ok(
            ASTNode::FunctionCallStmt(FunctionCallNode { position, args: pairs, target, r_type }),
        ),
        Err(d) => Err(d),
    }
}

/// Makes a call of the procedure `target`, which has the parameters
/// `params`. A call whose arguments fit the parameters always succeeds;
/// any other call is an error.
pub fn procedure_call(
    position: Position,
    target: String,
    params: &SymbolTable,
    args: Vec<ASTNode>,
) -> (r: Result<ASTNode, String>)
    ensures
        r is Ok <==> arguments_fit(params.entries(), args@),
        match r {
            Ok(node) => {
                &&& node matches ASTNode::ProcedureCallStmt(f)
                &&& f.position == position
                &&& f.target == target
                &&& f.args@.len() == args@.len()
                &&& forall|i: int|
                    0 <= i < f.args@.len() ==> (#[trigger] f.args@[i]).value == args@[i] && f.args@[i].name@
                        == params.entries()[i].name
            },
            Err(d) => d@ == call_error(params.entries(), types_of(args@)),
        },
        (forall|i: int| 0 <= i < args@.len() ==> (#[trigger] args@[i]).well_typed()) ==> (r matches Ok(
            n,
        ) ==> n.well_typed()),
{
    match pair_arguments(params, args) {
        Ok(pairs) => Ok(
            ASTNode::ProcedureCallStmt(ProcedureCallNode { position, args: pairs, target }),
        ),
        Err(d) => Err(d),
    }
}

/// The description of the error for a value of another type than the
/// place it is for: it says where, and gives both types.
pub open spec fn mismatch_message(place: Seq<char>, expected: Type, found: Type) -> Seq<char> {
    "Mismatching types in "@ + place + ": expected "@ + expected.text() + ", found "@
        + found.text()
}

fn mismatch(place: &str, expected: Type, found: Type) -> (d: String)
    ensures
        d@ == mismatch_message(place@, expected, found),
{
    let e = expected.to_string();
    let f = found.to_string();
    join6("Mismatching types in ", place, ": expected ", e.as_str(), ", found ", f.as_str())
}

/// Makes a reference to a name that holds a value. The name of a
/// function or of a procedure is an error.
pub fn variable(id: Token, r_type: Type, s_type: SymbolType) -> (r: Result<ASTNode, String>)
    ensures
        if s_type.is_storage() {
            r == Ok::<ASTNode, String>(
                ASTNode::VarName(
                    VariableNameExpressionNode { position: id.position, id, r_type, s_type },
                ),
            )
        } else {
            r matches Err(d) && d@ == "Expected variable name, found function name"@
        },
        r matches Ok(n) ==> n.well_typed(),
{
    if s_type.storage() {
        Ok(ASTNode::VarName(VariableNameExpressionNode { position: id.position, id, r_type, s_type }))
    } else {
        Err(copy_str("Expected variable name, found function name"))
    }
}

/// Makes a reference to an element of an array. The index must be an
/// `Int`, and the elements must be of a base type other than `Void`.
pub fn array_ref(id: Token, base: SimpleType, index: ASTNode) -> (r: Result<ASTNode, String>)
    ensures
        if base == SimpleType::Void {
            r matches Err(d) && d@ == "Arrays of void have no elements"@
        } else if index.spec_r_type() != integer() {
            r matches Err(d) && d@ == mismatch_message(
                "array index"@,
                integer(),
                index.spec_r_type(),
            )
        } else {
            r == Ok::<ASTNode, String>(
                ASTNode::ArrayRef(
                    ArrayRefExpr {
                        position: id.position,
                        array: id,
                        index: Box::new(index),
                        r_type: Type::Simple(base),
                    },
                ),
            )
        },
        index.well_typed() ==> (r matches Ok(n) ==> n.well_typed()),
{
    match base {
        SimpleType::Void => {
            return Err(copy_str("Arrays of void have no elements"));
        },
        _ => {},
    }
    let found = index.r_type();
    if found != Type::Simple(SimpleType::Int) {
        return Err(mismatch("array index", Type::Simple(SimpleType::Int), found));
    }
    Ok(
        ASTNode::ArrayRef(
            ArrayRefExpr {
                position: id.position,
                array: id,
                index: Box::new(index),
                r_type: Type::Simple(base),
            },
        ),
    )
}

/// Makes an assignment. The target must be a variable or an element of
/// an array, and the new value of its type.
pub fn assignment(position: Position, target: ASTNode, new_value: ASTNode) -> (r: Result<
    ASTNode,
    String,
>)
    ensures
        if !target.is_place() {
            r matches Err(d) && d@ == "Unknown variable to reassign"@
        } else if new_value.spec_r_type() != target.spec_r_type() {
            r matches Err(d) && d@ == mismatch_message(
                "var assignment"@,
                target.spec_r_type(),
                new_value.spec_r_type(),
            )
        } else {
            r == Ok::<ASTNode, String>(
                ASTNode::VarReassignment(
                    VarReassignmentExprNode {
                        position,
                        variable_to_reassign: Box::new(target),
                        new_value: Box::new(new_value),
                    },
                ),
            )
        },
        target.well_typed() && new_value.well_typed() ==> (r matches Ok(n) ==> n.well_typed()),
{
    let place = match &target {
        ASTNode::VarName(_) => true,
        ASTNode::ArrayRef(_) => true,
        _ => false,
    };
    if !place {
        return Err(copy_str("Unknown variable to reassign"));
    }
    let expected = target.r_type();
    let found = new_value.r_type();
    if found != expected {
        return Err(mismatch("var assignment", expected, found));
    }
    Ok(
        ASTNode::VarReassignment(
            VarReassignmentExprNode {
                position,
                variable_to_reassign: Box::new(target),
                new_value: Box::new(new_value),
            },
        ),
    )
}

/// Makes a declaration of a variable. An initial value must be of the
/// declared type.
pub fn declaration(id: Token, var_type: Type, value: Option<ASTNode>) -> (r: Result<
    ASTNode,
    String,
>)
    ensures
        match value {
            None => r == Ok::<ASTNode, String>(
                ASTNode::VariableDecl(
                    VariableDeclNode { position: id.position, id, var_type, value: None },
                ),
            ),
            Some(v) => if v.spec_r_type() == var_type {
                r == Ok::<ASTNode, String>(
                    ASTNode::VariableDecl(
                        VariableDeclNode {
                            position: id.position,
                            id,
                            var_type,
                            value: Some(
                                ExpressionStmtNode {
                                    position: v.spec_position(),
                                    child: Box::new(v),
                                    r_type: var_type,
                                },
                            ),
                        },
                    ),
                )
            } else {
                r matches Err(d) && d@ == mismatch_message(
                    "var declaration"@,
                    var_type,
                    v.spec_r_type(),
                )
            },
        },
        (value matches Some(v) ==> v.well_typed()) ==> (r matches Ok(n) ==> n.well_typed()),
{
    match value {
        None => Ok(
            ASTNode::VariableDecl(
                VariableDeclNode { position: id.position, id, var_type, value: None },
            ),
        ),
        Some(v) => {
            let found = v.r_type();
            if found != var_type {
                return Err(mismatch("var declaration", var_type, found));
            }
            let position = v.position();
            Ok(
                ASTNode::VariableDecl(
                    VariableDeclNode {
                        position: id.position,
                        id,
                        var_type,
                        value: Some(
                            ExpressionStmtNode { position, child: Box::new(v), r_type: var_type },
                        ),
                    },
                ),
            )
        },
    }
}

/// Makes a print statement. Nothing of type `Void` is printed.
pub fn print(position: Position, value: ASTNode) -> (r: Result<ASTNode, String>)
    ensures
        if value.spec_r_type() == void() {
            r matches Err(d) && d@ == "Unable to print a void expression"@
        } else {
            r == Ok::<ASTNode, String>(
                ASTNode::PrintStmt(PrintStmtNode { to_print: Box::new(value), position }),
            )
        },
        value.well_typed() ==> (r matches Ok(n) ==> n.well_typed()),
{
    if value.r_type() == Type::Simple(SimpleType::Void) {
        Err(copy_str("Unable to print a void expression"))
    } else {
        Ok(ASTNode::PrintStmt(PrintStmtNode { to_print: Box::new(value), position }))
    }
}

/// Whether a `read` can fill the node: a variable or an element of an
/// array, of a base type other than `Void`.
pub open spec fn readable(target: ASTNode) -> bool {
    &&& target.is_place()
    &&& target.spec_r_type() is Simple
    &&& target.spec_r_type() != void()
}

/// Makes a read statement. The target must be a variable or an element
/// of an array, of a base type other than `Void`.
pub fn read(position: Position, target: ASTNode) -> (r: Result<ASTNode, String>)
    ensures
        if !target.is_place() {
            r matches Err(d) && d@ == "Trying to read into an unknown variable"@
        } else if target.spec_r_type() is Array {
            r matches Err(d) && d@ == "Trying to read into whole array"@
        } else if target.spec_r_type() == void() {
            r matches Err(d) && d@ == "Trying to read into void expression"@
        } else {
            r == Ok::<ASTNode, String>(
                ASTNode::ReadStmt(ReadStmtNode { position, variable_to_read_in: Box::new(target) }),
            )
        },
        target.well_typed() ==> (r matches Ok(n) ==> n.well_typed()),
{
    let place = match &target {
        ASTNode::VarName(_) => true,
        ASTNode::ArrayRef(_) => true,
        _ => false,
    };
    if !place {
        return Err(copy_str("Trying to read into an unknown variable"));
    }
    match target.r_type() {
        Type::Array(_) => Err(copy_str("Trying to read into whole array")),
        Type::Simple(SimpleType::Void) => Err(copy_str("Trying to read into void expression")),
        Type::Simple(_) => Ok(
            ASTNode::ReadStmt(ReadStmtNode { position, variable_to_read_in: Box::new(target) }),
        ),
    }
}

/// Makes an assert statement. The expression must be `Bool`.
pub fn assertion(position: Position, expr: ASTNode) -> (r: Result<ASTNode, String>)
    ensures
        if expr.spec_r_type() == boolean() {
            r == Ok::<ASTNode, String>(
                ASTNode::AssertStmt(AssertStmtNode { position, expr: Box::new(expr) }),
            )
        } else {
            r matches Err(d) && d@ == not_boolean_message("operand of assert"@, expr.spec_r_type())
        },
        expr.well_typed() ==> (r matches Ok(n) ==> n.well_typed()),
{
    match check_boolean(&expr, "operand of assert") {
        Ok(_) => Ok(ASTNode::AssertStmt(AssertStmtNode { position, expr: Box::new(expr) })),
        Err(d) => Err(d),
    }
}

} // verus!
