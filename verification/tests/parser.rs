use minipascal::base::ast::{ASTNode, BinaryExprType};
use minipascal::base::errors::SyntaxError;
use minipascal::base::objects::Object;
use minipascal::base::symbol_table::SymbolType;
use minipascal::base::token::Kind;
use minipascal::base::types::{SimpleType, Type};
use minipascal::parser::Parser;

const INT: Type = Type::Simple(SimpleType::Int);
const BOOL: Type = Type::Simple(SimpleType::Bool);

fn program(body: &str) -> String {
    format!("program p;\nbegin\n{}\nend", body)
}

fn parse(src: &str) -> Result<ASTNode, Vec<SyntaxError>> {
    Parser::new(src.to_string()).parse()
}

fn statements(body: &str) -> Vec<ASTNode> {
    match parse(&program(body)) {
        Ok(ASTNode::Program(p)) => p.main_block.statements,
        Ok(other) => panic!("Expected a program, got {}", other.to_string()),
        Err(errors) => panic!("Expected a program, got errors {:?}", errors),
    }
}

fn errors(body: &str) -> Vec<String> {
    match parse(&program(body)) {
        Ok(_) => panic!("Expected errors, got a program"),
        Err(errors) => errors.into_iter().map(|e| e.description).collect(),
    }
}

fn expression(src: &str) -> Result<ASTNode, Vec<SyntaxError>> {
    Parser::new(src.to_string()).parse_expression()
}

fn type_of(src: &str) -> Type {
    match expression(src) {
        Ok(node) => node.r_type(),
        Err(e) => panic!("Expected an expression, got {:?}", e),
    }
}

fn expression_error(src: &str) -> String {
    match expression(src) {
        Ok(node) => panic!("Expected an error, got {}", node.to_string()),
        Err(e) => {
            assert_eq!(e.len(), 1);
            e[0].description.clone()
        }
    }
}

#[test]
fn smoke_program_parses() {
    let stmts = statements("var x : int := 2;\nvar y : int := 3;\nwriteln(x + y);");
    assert_eq!(stmts.len(), 3);
    assert!(matches!(stmts[0], ASTNode::VariableDecl(_)));
    assert!(matches!(stmts[1], ASTNode::VariableDecl(_)));
    match &stmts[2] {
        ASTNode::PrintStmt(p) => match &*p.to_print {
            ASTNode::BinaryExpression(e) => {
                assert_eq!(e.op_type, BinaryExprType::Addition);
                assert_eq!(e.r_type, INT);
                assert!(matches!(*e.left, ASTNode::VarName(_)));
                assert!(matches!(*e.right, ASTNode::VarName(_)));
            }
            other => panic!("Expected an addition, got {}", other.to_string()),
        },
        other => panic!("Expected a print, got {}", other.to_string()),
    }
}

#[test]
fn program_has_name_declarations_and_one_main_block() {
    let src = "program demo;\nfunction f(a: int): int;\nbegin\nreturn a;\nend\nprocedure q();\nbegin\nend\nfunction g(): bool;\nbegin\nreturn true;\nend\nbegin\nq();\nend";
    match parse(src) {
        Ok(ASTNode::Program(p)) => {
            assert_eq!(p.program_name.name.lexeme, "demo");
            assert_eq!(p.functions.len(), 2);
            assert_eq!(p.functions[0].name, "f");
            assert_eq!(p.functions[0].r_type, INT);
            assert_eq!(p.functions[0].args.len(), 1);
            assert_eq!(p.functions[1].name, "g");
            assert_eq!(p.procedures.len(), 1);
            assert_eq!(p.procedures[0].name, "q");
            assert_eq!(p.main_block.statements.len(), 1);
        }
        Ok(other) => panic!("Expected a program, got {}", other.to_string()),
        Err(e) => panic!("Expected a program, got {:?}", e),
    }
}

#[test]
fn program_without_name_or_main_block_is_an_error() {
    let e = parse("begin\nend").unwrap_err();
    assert_eq!(e.len(), 1);
    assert_eq!(e[0].description, "Found no program name in first line");
    let e = parse("program p;").unwrap_err();
    assert_eq!(e.len(), 1);
    assert_eq!(e[0].description, "Main block is nowhere to be found");
    let e = parse("").unwrap_err();
    assert_eq!(e[0].description, "Found no program name in first line");
    let e = parse("program p;\nbegin\nend\nbegin\nend").unwrap_err();
    assert_eq!(e[0].description, "Main block declared twice");
    let e = parse("program p;\nprogram q;\nbegin\nend").unwrap_err();
    assert_eq!(e[0].description, "Program name declared twice");
}

#[test]
fn statement_at_top_level_is_an_error() {
    let e = parse("program p;\nvar x : int;\nbegin\nend").unwrap_err();
    assert_eq!(
        e[0].description,
        "Expected either function or procedure initialization, found variable declaraion"
    );
}

#[test]
fn var_reassignment_error_if_not_init() {
    let mut parser = Parser::new("x := 3".to_string());
    if parser.parse().is_ok() {
        panic!("How does this work?!");
    }
}

#[test]
fn var_decl_of_already_declared_fails() {
    let mut parser = Parser::new("var x : int; var x : string".to_string());
    if parser.parse().is_ok() {
        panic!("How does this work?!");
    }
}

#[test]
fn line_comments_are_skipped() {
    let mut parser = Parser::new("//this is a comment\n".to_string());
    match parser.parse_statement() {
        Ok(ASTNode::EofStmt(_)) => {}
        Ok(node) => panic!("Should have gotten EOF, got node {}", node.to_string()),
        Err(err) => panic!("Should have gotten EOF, got errors {:?}", err),
    }
}

#[test]
fn block_comments_are_skipped() {
    let mut parser = Parser::new("/*all of this is skipped*/".to_string());
    match parser.parse_statement() {
        Ok(ASTNode::EofStmt(_)) => {}
        Ok(node) => panic!("Should have gotten EOF, got node {}", node.to_string()),
        Err(err) => panic!("Should have gotten EOF, got errors {:?}", err),
    }
}

#[test]
fn read_returns_error_if_var_not_initialized() {
    let mut parser = Parser::new("read x;".to_string());
    let read_node = parser.parse_statement();
    if let Ok(other) = read_node {
        panic!("Expected ASTNode::ReadStmt, got {}", other.to_string())
    }
}

#[test]
fn var_reasssignment_valid_generates_valid_ast_node() {
    let mut parser = Parser::new("var x : int; x := 5;".to_string());
    let _init = parser.parse_statement();
    let assign = parser.parse_statement();
    match assign {
        Ok(ASTNode::VarReassignment(node)) => {
            match &*node.variable_to_reassign {
                ASTNode::VarName(v) => assert_eq!("x", v.id.lexeme),
                other => panic!("Expected a variable, got {}", other.to_string()),
            }
            match &*node.new_value {
                ASTNode::Literal(l) => assert!(matches!(l.value, Object::Int(5))),
                other => panic!("Expected a literal, got {}", other.to_string()),
            }
        }
        Ok(other) => panic!("Expected ASTNode::VarReassignment, got {}", other.to_string()),
        Err(e) => panic!("Expected ASTNode::VarReassignment, got {:?}", e),
    }
}

#[test]
fn var_reasssignment_invalid_generates_error() {
    let mut parser = Parser::new("x := \"String\";".to_string());
    let assign = parser.parse_statement();
    if let Ok(what) = assign {
        panic!("Expected error, got {}", what.to_string())
    }
}

#[test]
fn invalid_statement_returns_error() {
    let mut parser = Parser::new(":= \"String\";".to_string());
    let err = parser.parse_statement();
    if let Ok(what) = err {
        panic!("Expected error, got {}", what.to_string())
    }
}

#[test]
fn print_that_does_not_make_sense_returns_error() {
    let mut parser = Parser::new("print var x;".to_string());
    let err = parser.parse_statement();
    if let Ok(what) = err {
        panic!("Expected error, got {}", what.to_string())
    }
}

#[test]
fn redeclaration_in_the_same_scope_cites_the_first_declaration() {
    let e = errors("var x : int;\nvar X : string;");
    assert_eq!(
        e,
        vec!["Declaration of an already declared variable: X, previously declared at 3:4".to_string()]
    );
    let e = errors("var x : int;\nwhile true do begin\nvar y : int;\nvar y : int;\nend");
    assert_eq!(
        e,
        vec!["Declaration of an already declared variable: y, previously declared at 5:4".to_string()]
    );
}

#[test]
fn redeclaration_in_a_nested_scope_shadows() {
    let stmts = statements(
        "var x : int;\nwhile true do begin\nvar x : string;\nx := \"inner\";\nend\nx := 1;\nbegin\nvar x : bool := true;\nend",
    );
    assert_eq!(stmts.len(), 4);
    match &stmts[1] {
        ASTNode::WhileStmt(w) => match &*w.block {
            ASTNode::Block(b) => {
                assert_eq!(b.context.len(), 1);
                assert_eq!(b.context.symbols[0].r_type, Type::Simple(SimpleType::String));
            }
            other => panic!("Expected a block, got {}", other.to_string()),
        },
        other => panic!("Expected a while loop, got {}", other.to_string()),
    }
}

#[test]
fn parameters_and_locals_of_a_function_are_its_own() {
    let src = "program p;\nfunction f(x: int): int;\nbegin\nvar y : int := x;\nreturn y;\nend\nbegin\nvar x : string;\nvar y : bool;\nend";
    assert!(parse(src).is_ok());
    let src = "program p;\nfunction f(x: int): int;\nbegin\nvar x : int;\nreturn x;\nend\nbegin\nend";
    let e = parse(src).unwrap_err();
    assert_eq!(e.len(), 1);
    assert!(e[0].description.starts_with("Declaration of an already declared variable: x"));
    let src = "program p;\nfunction f(x: int, x: bool): int;\nbegin\nreturn 1;\nend\nbegin\nend";
    let e = parse(src).unwrap_err();
    assert!(e[0].description.starts_with("Declaration of an already declared variable: x"));
}

#[test]
fn scopes_are_closed_on_every_path() {
    for body in [
        "var x : int;",
        "while true do begin var x : int; x := ; end",
        "while true do begin while true do begin x := 1; end end",
        "while 1 do begin end",
        "if true then begin var x : int; y := 2; end",
        "begin begin begin ) end end end",
        "begin",
    ] {
        let mut parser = Parser::new(program(body));
        let depth = parser.depth();
        let _ = parser.parse();
        assert_eq!(parser.depth(), depth);
    }
    let mut parser = Parser::new("function f(a: int): int; begin return b; end".to_string());
    let depth = parser.depth();
    assert!(parser.parse_global_statement().is_err());
    assert_eq!(parser.depth(), depth);
}

#[test]
fn types_of_expressions() {
    assert_eq!(type_of("1 + 2"), INT);
    assert_eq!(type_of("1 - 2 * 3 / 4"), INT);
    assert_eq!(type_of("1.5 + 2.5"), Type::Simple(SimpleType::Real));
    assert_eq!(type_of("1.5 - 2.5"), Type::Simple(SimpleType::Real));
    assert_eq!(type_of("\"a\" + \"b\""), Type::Simple(SimpleType::String));
    assert_eq!(type_of("1 < 2"), BOOL);
    assert_eq!(type_of("1.0 >= 2.0"), BOOL);
    assert_eq!(type_of("1 = 2"), BOOL);
    assert_eq!(type_of("\"a\" = \"b\""), BOOL);
    assert_eq!(type_of("true = false"), BOOL);
    assert_eq!(type_of("true and false"), BOOL);
    assert_eq!(type_of("!true"), BOOL);
    assert_eq!(type_of("!!(1 < 2)"), BOOL);
    assert_eq!(type_of("1 < 2 and 3 = 4"), BOOL);
    assert_eq!(type_of("(1 + 2) * 3"), INT);
    assert_eq!(type_of("[1, 2, 3]"), Type::Array(SimpleType::Int));
    assert_eq!(type_of("[\"a\"]"), Type::Array(SimpleType::String));
    assert_eq!(type_of("[true, false]"), Type::Array(SimpleType::Bool));
    assert_eq!(type_of("[1.5, 2.5]"), Type::Array(SimpleType::Real));
}

#[test]
fn illegal_operands_are_rejected() {
    assert_eq!(
        expression_error("1 + true"),
        "Mismatching types in Addition expression: int and bool"
    );
    assert_eq!(
        expression_error("true + true"),
        "Mismatching types in Addition expression: bool and bool"
    );
    assert_eq!(
        expression_error("\"a\" - \"b\""),
        "Mismatching types in Subtraction expression: string and string"
    );
    assert_eq!(
        expression_error("1.5 * 2.5"),
        "Mismatching types in Multiplication expression: real and real"
    );
    assert_eq!(
        expression_error("\"a\" / \"b\""),
        "Mismatching types in Division expression: string and string"
    );
    assert_eq!(
        expression_error("1 / 1.5"),
        "Mismatching types in Division expression: int and real"
    );
    assert_eq!(
        expression_error("true < false"),
        "Mismatching types in LogicLessThan expression: bool and bool"
    );
    assert_eq!(
        expression_error("\"a\" >= \"b\""),
        "Mismatching types in LogicGreaterThanEQ expression: string and string"
    );
    assert_eq!(
        expression_error("1 <= 1.5"),
        "Mismatching types in LogicLessThanEQ expression: int and real"
    );
    assert_eq!(
        expression_error("1 = true"),
        "Mismatching types in LogicEQ expression: int and bool"
    );
    assert_eq!(
        expression_error("1 and 2"),
        "Mismatching types in LogicAND expression: int and int"
    );
    assert_eq!(
        expression_error("true and 1"),
        "Mismatching types in LogicAND expression: bool and int"
    );
    assert_eq!(
        expression_error("[1] + [2]"),
        "Mismatching types in Addition expression: array of int and array of int"
    );
    assert_eq!(
        expression_error("[1] = [1]"),
        "Mismatching types in LogicEQ expression: array of int and array of int"
    );
    assert_eq!(
        expression_error("1 < 2 < 3"),
        "Mismatching types in LogicLessThan expression: bool and int"
    );
    assert_eq!(
        expression_error("!1"),
        "Expected boolean expression as operand of !, found int"
    );
}

#[test]
fn precedence_and_association() {
    match expression("1 + 2 * 3").unwrap() {
        ASTNode::BinaryExpression(e) => {
            assert_eq!(e.op_type, BinaryExprType::Addition);
            assert!(matches!(*e.left, ASTNode::Literal(_)));
            match *e.right {
                ASTNode::BinaryExpression(r) => assert_eq!(r.op_type, BinaryExprType::Multiplication),
                other => panic!("Expected a product, got {}", other.to_string()),
            }
        }
        other => panic!("Expected a sum, got {}", other.to_string()),
    }
    match expression("1 - 2 - 3").unwrap() {
        ASTNode::BinaryExpression(e) => {
            assert_eq!(e.op_type, BinaryExprType::Subtraction);
            assert!(matches!(*e.right, ASTNode::Literal(_)));
            match *e.left {
                ASTNode::BinaryExpression(l) => assert_eq!(l.op_type, BinaryExprType::Subtraction),
                other => panic!("Expected a difference, got {}", other.to_string()),
            }
        }
        other => panic!("Expected a difference, got {}", other.to_string()),
    }
    match expression("1 + 2 < 3 * 4 = true and !false").unwrap() {
        ASTNode::BinaryExpression(e) => {
            assert_eq!(e.op_type, BinaryExprType::LogicAND);
            assert!(matches!(*e.right, ASTNode::UnaryExpression(_)));
            match *e.left {
                ASTNode::BinaryExpression(eq) => {
                    assert_eq!(eq.op_type, BinaryExprType::LogicEQ);
                    match *eq.left {
                        ASTNode::BinaryExpression(lt) => {
                            assert_eq!(lt.op_type, BinaryExprType::LogicLessThan)
                        }
                        other => panic!("Expected a comparison, got {}", other.to_string()),
                    }
                }
                other => panic!("Expected an equality, got {}", other.to_string()),
            }
        }
        other => panic!("Expected a conjunction, got {}", other.to_string()),
    }
}

#[test]
fn literals() {
    match expression("42").unwrap() {
        ASTNode::Literal(l) => {
            assert!(matches!(l.value, Object::Int(42)));
            assert_eq!(l.r_type, INT);
        }
        other => panic!("Expected a literal, got {}", other.to_string()),
    }
    match expression("false").unwrap() {
        ASTNode::Literal(l) => assert!(matches!(l.value, Object::Bool(false))),
        other => panic!("Expected a literal, got {}", other.to_string()),
    }
    match expression("true").unwrap() {
        ASTNode::Literal(l) => assert!(matches!(l.value, Object::Bool(true))),
        other => panic!("Expected a literal, got {}", other.to_string()),
    }
    match expression("\"a\\tb\"").unwrap() {
        ASTNode::Literal(l) => match l.value {
            Object::String(s) => assert_eq!(s, "a\tb"),
            other => panic!("Expected a string, got {:?}", other),
        },
        other => panic!("Expected a literal, got {}", other.to_string()),
    }
    match expression("2.5e-3").unwrap() {
        ASTNode::Literal(l) => match l.value {
            Object::Real(s) => assert_eq!(s, "2.5e-3"),
            other => panic!("Expected a real, got {:?}", other),
        },
        other => panic!("Expected a literal, got {}", other.to_string()),
    }
    assert_eq!(expression_error("9223372036854775808"), "Integer literal out of range");
    assert_eq!(type_of("9223372036854775807"), INT);
}

#[test]
fn array_literals_are_homogeneous() {
    assert_eq!(
        expression_error("[1, true]"),
        "Inconsistent types in literal vector declaration"
    );
    assert_eq!(
        expression_error("[1, 2, \"three\"]"),
        "Inconsistent types in literal vector declaration"
    );
    assert_eq!(
        expression_error("[1.5, 2]"),
        "Inconsistent types in literal vector declaration"
    );
    assert_eq!(
        expression_error("[[1], [2]]"),
        "Unexpected type of value: array of int"
    );
    assert_eq!(expression_error("[1 2]"), "Unexpected token: literal int");
    assert_eq!(expression_error("[]"), "Unexpected token ]");
    assert_eq!(expression_error("[1,]"), "Unexpected token ]");
    match expression("[3, 4]").unwrap() {
        ASTNode::Literal(l) => match l.value {
            Object::Array(items) => {
                assert_eq!(items.len(), 2);
                assert!(matches!(items[0], Object::Int(3)));
                assert!(matches!(items[1], Object::Int(4)));
            }
            other => panic!("Expected an array, got {:?}", other),
        },
        other => panic!("Expected a literal, got {}", other.to_string()),
    }
    assert_eq!(
        errors("var x : int := 1;\nvar a : array [2] of int;\na := [x, 2];"),
        vec!["Unexpected array value: identifier".to_string()]
    );
}

#[test]
fn undeclared_identifier_is_exactly_one_error() {
    assert_eq!(expression_error("y"), "Unknown symbol in expression: y");
    assert_eq!(expression_error("1 + y"), "Unknown symbol in expression: y");
    assert_eq!(
        expression_error("(1 + 2 * (3 - y)) < 4 and true"),
        "Unknown symbol in expression: y"
    );
    assert_eq!(expression_error("!y"), "Unknown symbol in expression: y");
    assert_eq!(expression_error("[y]"), "Unknown symbol in expression: y");
    assert_eq!(
        errors("var x : int;\nwriteln(1 + 2 * (x - missing) / 3);\nx := 1;"),
        vec!["Unknown symbol in expression: missing".to_string()]
    );
    assert_eq!(
        errors("var x : int := (1 + missing);"),
        vec!["Unknown symbol in expression: missing".to_string()]
    );
    assert_eq!(
        errors("var b : bool;\nif missing = 1 then b := true;"),
        vec!["Unknown symbol in expression: missing".to_string()]
    );
    assert_eq!(errors("missing := 1;"), vec!["Symbol not found: missing".to_string()]);
}

#[test]
fn assignment_of_another_type_is_an_error() {
    assert_eq!(
        errors("var x : int;\nx := true;"),
        vec!["Mismatching types in var assignment: expected int, found bool".to_string()]
    );
    assert_eq!(
        errors("var s : string := 5;"),
        vec!["Mismatching types in var declaration: expected string, found int".to_string()]
    );
    assert_eq!(
        errors("var a : array [2] of int;\na := [true];"),
        vec!["Mismatching types in var assignment: expected array of int, found array of bool".to_string()]
    );
    assert_eq!(
        errors("var a : array [2] of int;\na[0] := true;"),
        vec!["Mismatching types in var assignment: expected int, found bool".to_string()]
    );
    assert_eq!(
        errors("var a : array [2] of int;\na[true] := 1;"),
        vec!["Mismatching types in array index: expected int, found bool".to_string()]
    );
    assert_eq!(
        errors("var a : array [2] of int;\nwriteln(a[\"x\"]);"),
        vec!["Mismatching types in array index: expected int, found string".to_string()]
    );
}

#[test]
fn arrays() {
    let stmts = statements(
        "var a : array [3] of int;\na := [1, 2, 3];\na[0] := a[1] + 1;\nwriteln(a[2]);\nwriteln(a);\nread(a[0]);",
    );
    assert_eq!(stmts.len(), 6);
    match &stmts[0] {
        ASTNode::VariableDecl(d) => assert_eq!(d.var_type, Type::Array(SimpleType::Int)),
        other => panic!("Expected a declaration, got {}", other.to_string()),
    }
    match &stmts[2] {
        ASTNode::VarReassignment(a) => match &*a.variable_to_reassign {
            ASTNode::ArrayRef(r) => {
                assert_eq!(r.array.lexeme, "a");
                assert_eq!(r.r_type, INT);
                assert_eq!(r.index.r_type(), INT);
            }
            other => panic!("Expected an element, got {}", other.to_string()),
        },
        other => panic!("Expected an assignment, got {}", other.to_string()),
    }
    match &stmts[4] {
        ASTNode::PrintStmt(p) => match &*p.to_print {
            ASTNode::VarName(v) => {
                assert_eq!(v.s_type, SymbolType::Arr);
                assert_eq!(v.r_type, Type::Array(SimpleType::Int));
            }
            other => panic!("Expected a variable, got {}", other.to_string()),
        },
        other => panic!("Expected a print, got {}", other.to_string()),
    }
    assert_eq!(
        errors("var a : array [2] of array [2] of int;"),
        vec!["Expected type declaration, found array".to_string()]
    );
    assert_eq!(
        errors("var a : array of int;"),
        vec!["Expected token: [, found of".to_string()]
    );
}

#[test]
fn calls_are_checked_against_the_declaration() {
    let head = "program p;\nfunction add(a: int, b: int): int;\nbegin\nreturn a + b;\nend\nprocedure show(var s: string, n: int);\nbegin\nwriteln(s);\nend\nbegin\n";
    let run = |body: &str| parse(&format!("{}{}\nend", head, body));
    let fails = |body: &str| -> Vec<String> {
        run(body).unwrap_err().into_iter().map(|e| e.description).collect()
    };
    match run("var x : int := add(1, 2 * 3);\nshow(\"x\", x);\nadd(1, 2);").unwrap() {
        ASTNode::Program(p) => {
            match &p.main_block.statements[0] {
                ASTNode::VariableDecl(d) => match &*d.value.as_ref().unwrap().child {
                    ASTNode::FunctionCallStmt(c) => {
                        assert_eq!(c.target, "add");
                        assert_eq!(c.r_type, INT);
                        assert_eq!(c.args.len(), 2);
                        assert_eq!(c.args[0].name, "a");
                        assert_eq!(c.args[1].name, "b");
                        assert!(matches!(c.args[1].value, ASTNode::BinaryExpression(_)));
                    }
                    other => panic!("Expected a call, got {}", other.to_string()),
                },
                other => panic!("Expected a declaration, got {}", other.to_string()),
            }
            match &p.main_block.statements[1] {
                ASTNode::ProcedureCallStmt(c) => {
                    assert_eq!(c.target, "show");
                    assert_eq!(c.args.len(), 2);
                    assert_eq!(c.args[0].name, "s");
                }
                other => panic!("Expected a call, got {}", other.to_string()),
            }
            assert!(matches!(p.main_block.statements[2], ASTNode::FunctionCallStmt(_)));
            let params = &p.procedures[0].args;
            assert_eq!(params.symbols[0].s_type, SymbolType::VarParam);
            assert_eq!(params.symbols[1].s_type, SymbolType::Param);
        }
        other => panic!("Expected a program, got {}", other.to_string()),
    }
    assert_eq!(
        fails("var x : int := add(1);"),
        vec!["Call with wrong number of parameters: expected 2, found 1".to_string()]
    );
    assert_eq!(
        fails("var x : int := add(1, 2, 3);"),
        vec!["Call with wrong number of parameters: expected 2, found 3".to_string()]
    );
    assert_eq!(
        fails("var x : int := add();"),
        vec!["Call with wrong number of parameters: expected 2, found 0".to_string()]
    );
    assert_eq!(
        fails("var x : int := add(1, true);"),
        vec!["Mismatching types in call: argument 2 is bool, expected int".to_string()]
    );
    assert_eq!(
        fails("var x : int := add(\"a\", true);"),
        vec!["Mismatching types in call: argument 1 is string, expected int".to_string()]
    );
    assert_eq!(
        fails("show(1, 1);"),
        vec!["Mismatching types in call: argument 1 is int, expected string".to_string()]
    );
    assert_eq!(
        fails("show(\"a\");"),
        vec!["Call with wrong number of parameters: expected 2, found 1".to_string()]
    );
    assert_eq!(
        fails("var b : bool := add(1, 2);"),
        vec!["Mismatching types in var declaration: expected bool, found int".to_string()]
    );
    assert_eq!(
        fails("var x : int := show(\"a\", 1);"),
        vec!["Procedures produce no value to return, cannot be used inside an expression".to_string()]
    );
    assert_eq!(
        fails("add := 1;"),
        vec!["Expected token: (, found :=".to_string()]
    );
    assert!(run("ADD(1, 2);\nvar y : int := Add(3, 4);").is_ok());
}

#[test]
fn a_function_can_call_itself_and_those_before_it() {
    let src = "program p;\nfunction fact(n: int): int;\nbegin\nif n < 2 then return 1;\nreturn n * fact(n - 1);\nend\nfunction twice(n: int): int;\nbegin\nreturn fact(n) + fact(n);\nend\nbegin\nwriteln(twice(3));\nend";
    assert!(parse(src).is_ok());
    let src = "program p;\nfunction first(n: int): int;\nbegin\nreturn second(n);\nend\nfunction second(n: int): int;\nbegin\nreturn n;\nend\nbegin\nend";
    let e = parse(src).unwrap_err();
    assert_eq!(e[0].description, "Unknown symbol in expression: second");
    let src = "program p;\nfunction f(): int;\nbegin\nreturn 1;\nend\nfunction F(): int;\nbegin\nreturn 2;\nend\nbegin\nend";
    let e = parse(src).unwrap_err();
    assert!(e[0].description.starts_with("Declaration of an already declared variable: F, previously declared at 2:"));
}

#[test]
fn guards_must_be_boolean() {
    assert_eq!(
        errors("while 1 do begin\nwriteln(1);\nend"),
        vec!["Expected boolean expression as while loop guard, found int".to_string()]
    );
    assert_eq!(
        errors("var x : int;\nif x then x := 1;"),
        vec!["Expected boolean expression as if guard, found int".to_string()]
    );
    assert_eq!(
        errors("if \"yes\" then writeln(1); else writeln(2);"),
        vec![
            "Expected boolean expression as if guard, found string".to_string(),
            "Unexpected token: else".to_string()
        ]
    );
    assert_eq!(
        errors("assert(1 + 1);"),
        vec!["Expected boolean expression as operand of assert, found int".to_string()]
    );
    // the guard is checked before the body is read: the body's own error is not met
    assert_eq!(
        errors("while 1 do begin\nmissing := 1;\nend"),
        vec![
            "Expected boolean expression as while loop guard, found int".to_string(),
            "Symbol not found: missing".to_string()
        ]
    );
}

#[test]
fn control_flow() {
    let stmts = statements(
        "var x : int := 0;\nwhile x < 3 do begin\nx := x + 1;\nend\nif x = 3 then writeln(\"three\"); else writeln(\"other\");\nif x > 1 then x := 0;\nassert(x = 0);\nread(x);\nreturn;",
    );
    assert_eq!(stmts.len(), 7);
    match &stmts[1] {
        ASTNode::WhileStmt(w) => {
            assert_eq!(w.guard.r_type(), BOOL);
            match &*w.block {
                ASTNode::Block(b) => assert_eq!(b.statements.len(), 1),
                other => panic!("Expected a block, got {}", other.to_string()),
            }
        }
        other => panic!("Expected a while loop, got {}", other.to_string()),
    }
    match &stmts[2] {
        ASTNode::IfStmt(i) => {
            assert!(matches!(*i.then_stmt, ASTNode::PrintStmt(_)));
            match i.else_stmt.as_deref() {
                Some(ASTNode::ElseStmt(e)) => assert!(matches!(*e.block, ASTNode::PrintStmt(_))),
                _ => panic!("Expected an else branch"),
            }
        }
        other => panic!("Expected an if statement, got {}", other.to_string()),
    }
    match &stmts[3] {
        ASTNode::IfStmt(i) => assert!(i.else_stmt.is_none()),
        other => panic!("Expected an if statement, got {}", other.to_string()),
    }
    assert!(matches!(stmts[4], ASTNode::AssertStmt(_)));
    assert!(matches!(stmts[5], ASTNode::ReadStmt(_)));
    match &stmts[6] {
        ASTNode::ReturnStmt(r) => assert!(r.value.is_none()),
        other => panic!("Expected a return, got {}", other.to_string()),
    }
}

#[test]
fn read_needs_a_place_of_a_base_type() {
    assert_eq!(
        errors("var a : array [2] of int;\nread(a);"),
        vec!["Trying to read into whole array".to_string()]
    );
    assert_eq!(errors("read(5);"), vec!["Expected token: Identifier, found literal int".to_string()]);
    assert_eq!(errors("read(missing);"), vec!["Unknown symbol: missing".to_string()]);
    assert_eq!(errors("read x;"), vec!["Expected token: (, found Identifier".to_string()]);
}

#[test]
fn errors_of_several_statements_are_all_found() {
    let e = errors("var x : int;\nx := true;\nx := 1;\ny := 2;\nwriteln(x +);\nx := 3;");
    assert_eq!(
        e,
        vec![
            "Mismatching types in var assignment: expected int, found bool".to_string(),
            "Symbol not found: y".to_string(),
            "Unexpected token )".to_string()
        ]
    );
    let src = "program p;\nfunction f(: int;\nbegin\nend\nprocedure q();\nbegin\nx := 1;\nend\nbegin\nwriteln(;\nend";
    let e: Vec<String> = parse(src).unwrap_err().into_iter().map(|e| e.description).collect();
    assert_eq!(
        e,
        vec![
            "Expected a param declaration, found :".to_string(),
            "Symbol not found: x".to_string(),
            "Unexpected token ;".to_string()
        ]
    );
}

#[test]
fn errors_of_the_scanner_are_recorded_in_order() {
    let e = parse("program p;\nbegin\nvar x : int @;\nx := \"open\nend").unwrap_err();
    let descriptions: Vec<String> = e.iter().map(|e| e.description.clone()).collect();
    assert_eq!(descriptions[0], "Unknown token: @;");
    assert!(descriptions.contains(&"Reached EOF while scanning string".to_string()));
    assert_eq!(e[0].raw_line, "var x : int @;");
    assert_eq!(e[0].position.line, 3);
}

#[test]
fn errors_carry_position_and_line() {
    let e = parse("program p;\nbegin\n  var x : int;\n  x := true;\nend").unwrap_err();
    assert_eq!(e.len(), 1);
    assert_eq!(e[0].position.line, 4);
    assert_eq!(e[0].raw_line, "  x := true;");
}

#[test]
fn tokens_one_at_a_time() {
    let mut parser = Parser::new("a b c".to_string());
    assert!(parser.matches(Kind::InitParser));
    assert_eq!(parser.advance().lexeme, "a");
    assert_eq!(parser.advance().lexeme, "b");
    assert_eq!(parser.previous().lexeme, "a");
    let mark = parser.mark();
    parser.go_back();
    assert_eq!(parser.current().lexeme, "a");
    assert_eq!(parser.mark(), mark + 1);
    assert_eq!(parser.advance().lexeme, "b");
    assert_eq!(parser.mark(), mark);
    assert_eq!(parser.advance().lexeme, "c");
    assert!(!parser.is_at_end());
    assert_eq!(parser.advance().kind, Kind::Eof);
    assert!(parser.is_at_end());
    assert_eq!(parser.advance().kind, Kind::Eof);
    assert_eq!(parser.mark(), 0);
    parser.go_back();
    assert_eq!(parser.mark(), 0);
    assert!(parser.errors().is_empty());
}

#[test]
fn skipping_stops_at_a_boundary() {
    for (src, stop) in [
        ("a b ; c", Kind::Semicolon),
        ("a b end c", Kind::End),
        ("a function f", Kind::Function),
        ("a procedure f", Kind::Procedure),
        ("a begin", Kind::Begin),
        ("a b c", Kind::Eof),
    ] {
        let mut parser = Parser::new(src.to_string());
        parser.advance();
        parser.skip_to_boundary();
        assert_eq!(parser.current().kind, stop);
        parser.skip_to_boundary();
        assert_eq!(parser.current().kind, stop);

        let given_back = matches!(stop, Kind::Function | Kind::Procedure | Kind::Begin);
        let mut parser = Parser::new(src.to_string());
        parser.advance();
        parser.syncronize();
        if given_back {
            assert_eq!(parser.current().lexeme, "a");
            assert_eq!(parser.advance().kind, stop);
            parser.syncronize();
            assert_eq!(parser.current().lexeme, "a");
            assert_eq!(parser.advance().kind, stop);
        } else {
            assert_eq!(parser.current().kind, stop);
            parser.syncronize();
            assert_eq!(parser.current().kind, stop);
        }
    }
    assert!(Parser::is_boundary(Kind::Semicolon));
    assert!(!Parser::is_boundary(Kind::Comma));
}

#[test]
fn errors_at_the_current_token() {
    let mut parser = Parser::new("x := 1;\ny".to_string());
    parser.advance();
    parser.advance();
    let e = parser.syntax_error("something");
    assert_eq!(e.description, "something");
    assert_eq!(e.position.char_number, 3);
    assert_eq!(e.raw_line, "x := 1;");
    let u = parser.unexpected_token_err(Kind::Semicolon, Kind::ColonEqual);
    assert_eq!(u.len(), 1);
    assert_eq!(u[0].description, "Expected token: ;, found :=");
    assert!(parser.errors().is_empty());
    parser.error_at_current(&e);
    assert_eq!(parser.errors().len(), 1);
    assert_eq!(parser.errors()[0].description, "something");
    assert!(parser.expect_current(Kind::ColonEqual).is_ok());
    assert!(parser.expect_current(Kind::Colon).is_err());
    assert!(parser.expect_advance(Kind::LitInt).is_ok());
    assert_eq!(
        parser.expect_advance(Kind::Comma).unwrap_err()[0].description,
        "Expected token: ,, found ;"
    );
}

#[test]
fn types_are_parsed() {
    for (src, expected) in [
        ("int", Type::Simple(SimpleType::Int)),
        ("string", Type::Simple(SimpleType::String)),
        ("bool", Type::Simple(SimpleType::Bool)),
        ("real", Type::Simple(SimpleType::Real)),
        ("array [10] of int", Type::Array(SimpleType::Int)),
        ("array [1] of string", Type::Array(SimpleType::String)),
    ] {
        let mut parser = Parser::new(src.to_string());
        assert_eq!(parser.parse_type().unwrap(), expected);
    }
    for (src, expected) in [
        ("x", "Expected type declaration, found Identifier"),
        ("", "Expected type declaration, found End Of File"),
        ("array [x] of int", "Expected token: literal int, found Identifier"),
        ("array [1) of int", "Expected token: ], found )"),
        ("array [1] int", "Expected token: of, found type int"),
    ] {
        let mut parser = Parser::new(src.to_string());
        assert_eq!(parser.parse_type().unwrap_err()[0].description, expected);
    }
}

#[test]
fn declaring_in_scopes() {
    let mut parser = Parser::new(String::new());
    let at = minipascal::scanner::position::Position::new(5, 2, 3);
    assert!(parser.declare_variable("x".to_string(), INT, at).is_ok());
    let e = parser.declare_variable("X".to_string(), BOOL, at).unwrap_err();
    assert_eq!(
        e[0].description,
        "Declaration of an already declared variable: X, previously declared at 2:3"
    );
    parser.enter_scope(minipascal::base::symbol_table::SymbolTable::new());
    assert_eq!(parser.depth(), 2);
    assert_eq!(parser.get_symbol("x").unwrap().r_type, INT);
    assert!(parser.declare_variable("x".to_string(), BOOL, at).is_ok());
    assert_eq!(parser.get_symbol("x").unwrap().r_type, BOOL);
    assert!(parser
        .declare_variable("a".to_string(), Type::Array(SimpleType::Int), at)
        .is_ok());
    assert_eq!(parser.get_symbol("A").unwrap().s_type, SymbolType::Arr);
    let inner = parser.exit_scope().unwrap();
    assert_eq!(inner.len(), 2);
    assert_eq!(parser.get_symbol("x").unwrap().r_type, INT);
    assert!(parser.get_symbol("a").is_none());
    assert!(parser.exit_scope().is_some());
    assert!(parser.exit_scope().is_none());
    let e = parser.declare_variable("x".to_string(), INT, at).unwrap_err();
    assert_eq!(e[0].description, "Declaring variable in global scope is not permitted");
}
