use minipascal::base::ast::{ASTNode, BinaryExprType, ExpressionStmtNode};
use minipascal::base::objects::Object;
use minipascal::base::types::{SimpleType, Type};
use minipascal::base::variable::Variable;
use minipascal::parser::Parser;

/// The value of an expression that is made of literals and operators.
fn value_of(node: &ASTNode) -> Variable {
    match node {
        ASTNode::Literal(l) => match &l.value {
            Object::Int(i) => Variable::from_int(*i),
            Object::Bool(b) => Variable::from_bool(*b),
            Object::String(s) => Variable::from_string(s.clone()),
            other => panic!("no value for {:?}", other),
        },
        ASTNode::UnaryExpression(u) => Variable::from_bool(!value_of(&u.expression).bool_value),
        ASTNode::BinaryExpression(e) => {
            let l = value_of(&e.left);
            let r = value_of(&e.right);
            match e.op_type {
                BinaryExprType::Addition => Variable::from_int(l.int_value + r.int_value),
                BinaryExprType::Subtraction => Variable::from_int(l.int_value - r.int_value),
                BinaryExprType::Multiplication => Variable::from_int(l.int_value * r.int_value),
                BinaryExprType::Division => Variable::from_int(l.int_value / r.int_value),
                BinaryExprType::LogicAND => Variable::from_bool(l.bool_value && r.bool_value),
                BinaryExprType::LogicEQ => Variable::from_bool(l.string_value == r.string_value),
                BinaryExprType::LogicGreaterThan => Variable::from_bool(l.int_value > r.int_value),
                BinaryExprType::LogicGreaterThanEQ => {
                    Variable::from_bool(l.int_value >= r.int_value)
                }
                BinaryExprType::LogicLessThan => Variable::from_bool(l.int_value < r.int_value),
                BinaryExprType::LogicLessThanEQ => Variable::from_bool(l.int_value <= r.int_value),
            }
        }
        other => panic!("no value for {}", other.to_string()),
    }
}

fn value_of_initial(value: Option<ExpressionStmtNode>) -> Variable {
    value_of(&value.unwrap().child)
}

/// The initial value of the declaration of `x` that `src` holds.
fn declared_value(src: &str) -> Variable {
    let mut parser = Parser::new(src.to_string());
    match parser.parse_statement() {
        Ok(ASTNode::VariableDecl(node)) => {
            assert_eq!("x", node.id.lexeme);
            value_of_initial(node.value)
        }
        Ok(other) => panic!("expected valid node, found {}", other.to_string()),
        Err(vecc) => panic!("expected valid node, found {:?}", vecc),
    }
}

#[test]
fn var_declaration_emits_var_node() {
    let mut parser = Parser::new("var x : string := \"string value\";".to_string());
    if let ASTNode::VariableDecl(node) = parser.parse_statement().unwrap() {
        assert_eq!("x", node.id.lexeme);
        assert_eq!(Type::Simple(SimpleType::String), node.var_type);
        assert_eq!("string value", value_of_initial(node.value).string_value)
    } else {
        panic!("parse_var_declaration doesn't emit a variableDecl node")
    }
}

#[test]
fn valid_expression_gets_parsed_correctly() {
    let mut parser = Parser::new("3 + 1 * 8;".to_string());
    match parser.parse_expression() {
        Ok(node) => assert_eq!(11, value_of(&node).int_value),
        _ => panic!("Expression fail"),
    };
}

#[test]
fn boolean_equality_gets_parsed_correctly() {
    let mut parser = Parser::new("1 = 1".to_string());
    match parser.parse_expression() {
        Ok(node) => assert!(value_of(&node).bool_value),
        _ => panic!("Boolean expression not parsed correctly"),
    }
}

#[test]
fn assert_works_as_expected() {
    let mut parser = Parser::new("assert(false);".to_string());
    match parser.parse_statement() {
        Ok(ASTNode::AssertStmt(node)) => assert!(!value_of(&node.expr).bool_value),
        Ok(_) => panic!(
            "Boolean expression not parsed correctly, got something that is not an assert statement"
        ),
        Err(e) => panic!("Boolean expression not parsed correctly, got a syntax error: {:?}", e),
    }
}

#[test]
fn bool_bang_expression_ok() {
    assert!(declared_value("var x : bool := !false;").bool_value);
}

#[test]
fn bool_greater_expression_ok() {
    assert!(declared_value("var x : bool := 1 > 0;").bool_value);
}

#[test]
fn bool_greater_eq_graeater_expression_ok() {
    assert!(declared_value("var x : bool := 1 >= 0;").bool_value);
}

#[test]
fn bool_greater_eq_eq_expression_ok() {
    assert!(declared_value("var x : bool := 1 >= 1;").bool_value);
}

#[test]
fn bool_greater_eq_lower_expression_ok() {
    assert!(!declared_value("var x : bool := 0 >= 1;").bool_value);
}

#[test]
fn bool_lower_eq_graeater_expression_ok() {
    assert!(!declared_value("var x : bool := 1 <= 0;").bool_value);
}

#[test]
fn bool_lower_eq_eq_expression_ok() {
    assert!(declared_value("var x : bool := 1 <= 1;").bool_value);
}

#[test]
fn bool_lower_eq_lower_expression_ok() {
    assert!(declared_value("var x : bool := 0 <= 1;").bool_value);
}

#[test]
fn expressions_associate_to_the_left() {
    let mut parser = Parser::new("20 - 5 - 3 * 2 / 4 + 1".to_string());
    let node = parser.parse_expression().unwrap();
    assert_eq!(value_of(&node).int_value, 20 - 5 - 3 * 2 / 4 + 1);
    let mut parser = Parser::new("(1 < 2) = (2 >= 2) and !(3 = 4)".to_string());
    let node = parser.parse_expression().unwrap();
    assert!(value_of(&node).bool_value);
    let mut parser = Parser::new("100 / 10 / 5".to_string());
    let node = parser.parse_expression().unwrap();
    assert_eq!(value_of(&node).int_value, 2);
}
