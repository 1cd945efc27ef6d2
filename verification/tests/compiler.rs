use minipascal::base::ast::{
    ASTNode, BinaryExprNode, BinaryExprType, LiteralExprNode, PrintStmtNode, ProcedureCallNode,
    ProgramNameNode, ReadStmtNode, VarReassignmentExprNode, VariableNameExpressionNode,
};
use minipascal::base::objects::Object;
use minipascal::base::symbol_table::SymbolType;
use minipascal::base::token::{Kind, Token};
use minipascal::base::types::{SimpleType, Type};
use minipascal::compiler::{Compiler, State};
use minipascal::scanner::position::Position;

const HEADER: &str = "#include <stdio.h>\n#include <stdlib.h>\n#include <string.h>\n#include <stdbool.h>\nint main(){\n";
const FOOTER: &str = "\n}";
const PROLOGUE: [&str; 10] = [
    "int last_int;",
    "float last_float;",
    "bool last_bool;",
    "char* last_str;",
    "int* last_int_arr;",
    "float* last_float_arr;",
    "bool* last_bool_arr;",
    "char** last_str_arr;",
    "void* main_block_ptr = &&main_block;",
    "goto *main_block_ptr;",
];

fn compile(src: &str) -> Compiler {
    let mut compiler = Compiler::new();
    if let Err(errors) = compiler.compile(src.to_string()) {
        for e in errors.iter() {
            println!("{}:{} {}", e.position.line, e.position.col, e.description);
        }
        panic!("Expected code, got {} errors", errors.len());
    }
    assert!(matches!(compiler.state, State::Sane));
    assert!(compiler.is_sane());
    assert!(compiler.c_errors.is_empty());
    assert!(compiler.s_errors.is_empty());
    compiler
}

fn lines_of(compiler: &Compiler) -> Vec<String> {
    let source = compiler.get_source();
    assert!(source.starts_with(HEADER));
    assert!(source.ends_with(FOOTER));
    let code = &source[HEADER.len()..source.len() - FOOTER.len()];
    let mut lines: Vec<String> = code.split('\n').map(|l| l.to_string()).collect();
    assert_eq!(lines.pop(), Some(String::new()));
    lines
}

/// The instructions of the main block of a program with this body.
fn main_code(body: &str) -> Vec<String> {
    let compiler = compile(&format!("program p;\nbegin\n{}\nend", body));
    let lines = lines_of(&compiler);
    assert_eq!(&lines[..10], &PROLOGUE[..]);
    assert_eq!(lines[10], "main_block:");
    assert_eq!(lines[lines.len() - 1], "return 0;");
    lines[11..lines.len() - 1].to_vec()
}

fn pos() -> Position {
    Position::new(7, 2, 3)
}

fn tok(kind: Kind, lexeme: &str) -> Token {
    Token::new(kind, lexeme.to_string(), pos())
}

fn lit(value: Object, r_type: Type) -> ASTNode {
    ASTNode::Literal(LiteralExprNode { position: pos(), value, r_type })
}

fn name(lexeme: &str, r_type: Type, s_type: SymbolType) -> ASTNode {
    ASTNode::VarName(VariableNameExpressionNode {
        position: pos(),
        id: tok(Kind::Identifier, lexeme),
        r_type,
        s_type,
    })
}

fn binary(op_type: BinaryExprType, left: ASTNode, right: ASTNode, r_type: Type) -> ASTNode {
    ASTNode::BinaryExpression(BinaryExprNode {
        position: pos(),
        left: Box::new(left),
        op: tok(Kind::Plus, "+"),
        op_type,
        right: Box::new(right),
        r_type,
    })
}

fn generated(node: &ASTNode) -> (Compiler, Vec<String>) {
    let mut compiler = Compiler::new();
    compiler.compile_ast(node);
    compiler.gen_source();
    let lines = lines_of(&compiler);
    (compiler, lines)
}

const INT: Type = Type::Simple(SimpleType::Int);
const BOOL: Type = Type::Simple(SimpleType::Bool);
const VOID: Type = Type::Simple(SimpleType::Void);

#[test]
fn scenario_declarations_addition_and_print() {
    assert_eq!(
        main_code("var x : int := 2;\nvar y : int := 3;\nwriteln(x + y);"),
        vec![
            "int main_x;",
            "last_int = 2;",
            "main_x = last_int;",
            "int main_y;",
            "last_int = 3;",
            "main_y = last_int;",
            "int left_arm_0;",
            "int right_arm_0;",
            "last_int = main_x;",
            "left_arm_0 = last_int;",
            "last_int = main_y;",
            "right_arm_0 = last_int;",
            "last_int = left_arm_0 + right_arm_0;",
            "printf(\"%d\\n\", last_int);",
        ]
    );
}

#[test]
fn scenario_function_call_linkage() {
    let compiler = compile(
        "program p;\nfunction f(a: int): int;\nbegin\n  return a + 1;\nend\nbegin\n  writeln(f(5));\nend",
    );
    let lines = lines_of(&compiler);
    assert_eq!(
        &lines[10..],
        &[
            "int f_a;",
            "int f_return_value;",
            "void* f_return_ptr;",
            "void* fptr_f = &&f_f;",
            "f_f:",
            "int left_arm_0;",
            "int right_arm_0;",
            "last_int = f_a;",
            "left_arm_0 = last_int;",
            "last_int = 1;",
            "right_arm_0 = last_int;",
            "last_int = left_arm_0 + right_arm_0;",
            "f_return_value = last_int;",
            "goto *f_return_ptr;",
            "main_block:",
            "last_int = 5;",
            "f_a = last_int;",
            "f_return_ptr = &&ret_1;",
            "goto f_f;",
            "ret_1:",
            "last_int = f_return_value;",
            "printf(\"%d\\n\", last_int);",
            "return 0;",
        ]
    );
    assert_eq!(compiler.scope, "main");
    assert_eq!(compiler.label, 2);
}

#[test]
fn procedures_come_after_functions_and_return_nothing() {
    let compiler = compile(
        "program p;\nprocedure show(var s: string, n: int);\nbegin\nwriteln(s);\nend\nfunction one(): int;\nbegin\nreturn 1;\nend\nbegin\nshow(\"hi\", one());\nend",
    );
    let lines = lines_of(&compiler);
    assert_eq!(
        &lines[10..],
        &[
            "int one_return_value;",
            "void* one_return_ptr;",
            "void* fptr_one = &&f_one;",
            "f_one:",
            "last_int = 1;",
            "one_return_value = last_int;",
            "goto *one_return_ptr;",
            "*char show_s;",
            "int show_n;",
            "void* show_return_ptr;",
            "void* fptr_show = &&f_show;",
            "f_show:",
            "last_str = show_s;",
            "printf(\"%s\\n\", last_str);",
            "goto *show_return_ptr;",
            "main_block:",
            "last_str = malloc(128 * sizeof(char));",
            "strcpy(last_str, \"hi\");",
            "show_s = last_str;",
            "one_return_ptr = &&ret_1;",
            "goto f_one;",
            "ret_1:",
            "last_int = one_return_value;",
            "show_n = last_int;",
            "show_return_ptr = &&ret_0;",
            "goto f_show;",
            "ret_0:",
            "return 0;",
        ]
    );
}

#[test]
fn two_fresh_generators_emit_the_same_code() {
    let src = "program p;\nfunction f(a: int): int;\nbegin\nif a < 1 then return 0;\nreturn f(a - 1) + 1;\nend\nbegin\nvar i : int := 0;\nwhile i < 3 do begin\nwriteln(f(i));\ni := i + 1;\nend\nend";
    let first = compile(src);
    let second = compile(src);
    assert_eq!(first.get_source(), second.get_source());
    assert_eq!(first.label, second.label);
    let ast = minipascal::parser::Parser::new(src.to_string()).parse().unwrap();
    let mut a = Compiler::new();
    a.compile_ast(&ast);
    a.gen_source();
    let mut b = Compiler::default();
    b.compile_ast(&ast);
    b.gen_source();
    assert_eq!(a.get_source(), b.get_source());
    assert_eq!(a.get_source(), first.get_source());
    // a generator that has emitted code goes on with its labels
    b.compile_ast(&ast);
    b.gen_source();
    assert_ne!(a.get_source(), b.get_source());
    assert_eq!(b.label, 2 * a.label);
}

#[test]
fn two_trees_of_the_same_source_give_the_same_code() {
    let src = "program p;\nprocedure show(var n: int);\nbegin\nwriteln(n);\nend\nbegin\nvar a : array [2] of int := [1, 2];\nvar s : string := \"x\\ty\";\na[0] := a[1] * 3;\nif !(a[0] = 6) then writeln(s); else show(a[0]);\nend";
    let first = minipascal::parser::Parser::new(src.to_string()).parse().unwrap();
    let second = minipascal::parser::Parser::new(src.to_string()).parse().unwrap();
    let mut a = Compiler::new();
    a.compile_ast(&first);
    a.gen_source();
    let mut b = Compiler::new();
    b.compile_ast(&second);
    b.gen_source();
    assert_eq!(a.get_source(), b.get_source());
    assert_eq!(a.label, b.label);
    assert_eq!(a.label_number(), a.label);
    assert!(a.compilation_errors().is_empty());
    assert!(a.parse_errors().is_empty());
    assert_eq!(a.get_source(), compile(src).get_source());
    assert!(a.get_source().contains("tmp_"));
    let mut c = Compiler::new();
    c.compile_ast(&first.clone());
    c.gen_source();
    assert_eq!(c.get_source(), a.get_source());
    let mut d = Compiler::new();
    d.compile_ast(&second.copy());
    d.gen_source();
    assert_eq!(d.get_source(), a.get_source());
}

#[test]
fn syntax_errors_are_added_to_those_of_the_generator() {
    let mut compiler = Compiler::new();
    let text = compiler.compile_source("program p;\nbegin\nx := 1;\nend".to_string());
    assert_eq!(text, "");
    assert_eq!(compiler.s_errors.len(), 1);
    let text = compiler.compile_source("program p;\nbegin\ny := 1;\nz := 2;\nend".to_string());
    assert_eq!(text, "");
    assert_eq!(compiler.s_errors.len(), 3);
    assert_eq!(compiler.s_errors[0].description, "Symbol not found: x");
    assert_eq!(compiler.s_errors[1].description, "Symbol not found: y");
    assert_eq!(compiler.s_errors[2].description, "Symbol not found: z");
    assert_eq!(compiler.parse_errors().len(), 3);
    assert_eq!(compiler.label_number(), 0);
    assert!(matches!(compiler.state, State::Error));
    assert_eq!(compiler.label, 0);
    assert_eq!(compiler.get_source(), "");
}

#[test]
fn while_loop() {
    assert_eq!(
        main_code("var x : int := 0;\nwhile x < 3 do begin\nx := x + 1;\nend"),
        vec![
            "int main_x;",
            "last_int = 0;",
            "main_x = last_int;",
            "void* endwhile_ptr_0 = &&endwhile_0;",
            "void* guard_ptr_0 = &&guard_0;",
            "guard_0:",
            "int left_arm_1;",
            "int right_arm_1;",
            "last_int = main_x;",
            "left_arm_1 = last_int;",
            "last_int = 3;",
            "right_arm_1 = last_int;",
            "last_bool = left_arm_1 < right_arm_1;",
            "if (!last_bool) goto *endwhile_ptr_0;",
            "int left_arm_2;",
            "int right_arm_2;",
            "last_int = main_x;",
            "left_arm_2 = last_int;",
            "last_int = 1;",
            "right_arm_2 = last_int;",
            "last_int = left_arm_2 + right_arm_2;",
            "main_x = last_int;",
            "goto *guard_ptr_0;",
            "endwhile_0:",
        ]
    );
}

#[test]
fn if_with_and_without_else() {
    assert_eq!(
        main_code("var x : int := 1;\nif x = 1 then writeln(\"one\"); else writeln(x);\nif true then x := 2;"),
        vec![
            "int main_x;",
            "last_int = 1;",
            "main_x = last_int;",
            "void* thenptr_0 = &&then_0;",
            "void* endifptr_0 = &&endif_0;",
            "int left_arm_1;",
            "int right_arm_1;",
            "last_int = main_x;",
            "left_arm_1 = last_int;",
            "last_int = 1;",
            "right_arm_1 = last_int;",
            "last_bool = left_arm_1 == right_arm_1;",
            "if (last_bool) goto *thenptr_0;",
            "last_int = main_x;",
            "printf(\"%d\\n\", last_int);",
            "goto *endifptr_0;",
            "then_0:",
            "last_str = malloc(128 * sizeof(char));",
            "strcpy(last_str, \"one\");",
            "printf(\"%s\\n\", last_str);",
            "endif_0:",
            "void* thenptr_2 = &&then_2;",
            "void* endifptr_2 = &&endif_2;",
            "last_bool = true;",
            "if (last_bool) goto *thenptr_2;",
            "goto *endifptr_2;",
            "then_2:",
            "last_int = 2;",
            "main_x = last_int;",
            "endif_2:",
        ]
    );
}

#[test]
fn operators_by_type() {
    assert_eq!(
        main_code("var s : string := \"a\" + \"b\";"),
        vec![
            "*char main_s;",
            "*char left_arm_0;",
            "*char right_arm_0;",
            "last_str = malloc(128 * sizeof(char));",
            "strcpy(last_str, \"a\");",
            "left_arm_0 = last_str;",
            "last_str = malloc(128 * sizeof(char));",
            "strcpy(last_str, \"b\");",
            "right_arm_0 = last_str;",
            "last_str = strcat(left_arm_0, right_arm_0);",
            "main_s = last_str;",
        ]
    );
    assert_eq!(
        main_code("var r : real := 1.5 - 2.5e1;"),
        vec![
            "float main_r;",
            "float left_arm_0;",
            "float right_arm_0;",
            "last_float = 1.5;",
            "left_arm_0 = last_float;",
            "last_float = 2.5e1;",
            "right_arm_0 = last_float;",
            "last_float = left_arm_0 - right_arm_0;",
            "main_r = last_float;",
        ]
    );
    for (op, c) in [("*", "*"), ("/", "/"), ("-", "-")] {
        let code = main_code(&format!("var x : int := 6 {} 3;", op));
        assert_eq!(code[7], format!("last_int = left_arm_0 {} right_arm_0;", c));
    }
    for (op, c) in [(">", ">"), (">=", ">="), ("<", "<"), ("<=", "<="), ("=", "==")] {
        let code = main_code(&format!("var b : bool := 6 {} 3;", op));
        assert_eq!(code[7], format!("last_bool = left_arm_0 {} right_arm_0;", c));
    }
    let code = main_code("var b : bool := true and false;");
    assert_eq!(code[1], "bool left_arm_0;");
    assert_eq!(code[7], "last_bool = left_arm_0 && right_arm_0;");
    assert_eq!(
        main_code("var b : bool := !true;\nassert(b);"),
        vec![
            "bool main_b;",
            "last_bool = true;",
            "last_bool = !last_bool;",
            "main_b = last_bool;",
            "last_bool = main_b;",
            "assert(last_bool);",
        ]
    );
}

#[test]
fn print_by_type() {
    assert_eq!(
        main_code("writeln(true);\nwriteln(1.5);\nwriteln(\"a\\\"b\");\nwriteln([1, 2]);"),
        vec![
            "last_bool = true;",
            "printf(\"%d\\n\", last_bool);",
            "last_float = 1.5;",
            "printf(\"%f\\n\", last_float);",
            "last_str = malloc(128 * sizeof(char));",
            "strcpy(last_str, \"a\\\"b\");",
            "printf(\"%s\\n\", last_str);",
            "int tmp_0[] = {1,2};",
            "last_int_arr = tmp_0;",
            "printf(\"array of int\");",
        ]
    );
    let code = main_code("writeln([\"a\"]);\nwriteln([true]);\nwriteln([1.5]);");
    assert_eq!(
        code,
        vec![
            "char* tmp_0[] = {\"a\"};",
            "last_str_arr = tmp_0;",
            "printf(\"array of string\");",
            "bool tmp_1[] = {true};",
            "last_bool_arr = tmp_1;",
            "printf(\"array of bool\");",
            "float tmp_2[] = {1.5};",
            "last_float_arr = tmp_2;",
            "printf(\"array of reals\");",
        ]
    );
}

#[test]
fn arrays_and_read() {
    assert_eq!(
        main_code("var a : array [3] of int;\na := [1, 2, 3];\na[0] := 5;\nwriteln(a[2]);\nread(a[1]);"),
        vec![
            "*int main_a;",
            "int tmp_0[] = {1,2,3};",
            "last_int_arr = tmp_0;",
            "main_a = last_int_arr;",
            "last_int = 0;",
            "int tmp_1 = last_int;",
            "last_int = 5;",
            "main_a[tmp_1] = last_int;",
            "last_int = 2;",
            "last_int = main_a[last_int];",
            "printf(\"%d\\n\", last_int);",
            "last_int = 1;",
            "scanf(\"%d\", &main_a[last_int]);",
        ]
    );
    assert_eq!(
        main_code("var x : int;\nvar s : string;\nvar b : bool;\nvar r : real;\nread(x);\nread(s);\nread(b);\nread(r);"),
        vec![
            "int main_x;",
            "*char main_s;",
            "bool main_b;",
            "float main_r;",
            "scanf(\"%d\", &main_x);",
            "scanf(\"%s\", main_s);",
            "scanf(\"%d\", &main_b);",
            "scanf(\"%f\", &main_r);",
        ]
    );
}

#[test]
fn names_are_stored_in_lowercase_under_their_scope() {
    assert_eq!(
        main_code("var Count : int;\nCOUNT := 1;\nwriteln(count);\nreturn;"),
        vec![
            "int main_count;",
            "last_int = 1;",
            "main_count = last_int;",
            "last_int = main_count;",
            "printf(\"%d\\n\", last_int);",
            "return;",
        ]
    );
    let compiler = compile(
        "program p;\nfunction Twice(N: int): int;\nbegin\nvar x : int := N + N;\nreturn x;\nend\nbegin\nvar x : int := twice(2);\nend",
    );
    let source = compiler.get_source();
    assert!(source.contains("int Twice_n;\n"));
    assert!(source.contains("int Twice_x;\n"));
    assert!(source.contains("last_int = Twice_n;\n"));
    assert!(source.contains("Twice_return_value = last_int;\n"));
    assert!(source.contains("Twice_n = last_int;\nTwice_return_ptr = &&ret_1;\ngoto f_Twice;\nret_1:\nlast_int = Twice_return_value;\n"));
    assert!(source.contains("main_block:\nint main_x;\n"));
    assert_eq!(Compiler::storage_of("main", "ÄB"), "main_äb");
    assert_eq!(Compiler::storage_of("F", "Up_1"), "F_up_1");
}

#[test]
fn illegal_operands_are_an_error_of_the_generator() {
    let node = binary(
        BinaryExprType::Addition,
        lit(Object::Bool(true), BOOL),
        lit(Object::Bool(false), BOOL),
        BOOL,
    );
    let (compiler, lines) = generated(&node);
    assert!(matches!(compiler.state, State::Error));
    assert!(!compiler.is_sane());
    assert_eq!(compiler.c_errors.len(), 1);
    assert_eq!(compiler.c_errors[0].description, "Invalid operand types for Addition: bool and bool");
    assert_eq!(compiler.c_errors[0].position, pos());
    // the operands are still evaluated, the operation is not emitted
    assert_eq!(
        lines,
        vec![
            "bool left_arm_0;",
            "bool right_arm_0;",
            "last_bool = true;",
            "left_arm_0 = last_bool;",
            "last_bool = false;",
            "right_arm_0 = last_bool;",
        ]
    );

    let arrays = binary(
        BinaryExprType::LogicEQ,
        lit(Object::Array(vec![Object::Int(1)]), Type::Array(SimpleType::Int)),
        lit(Object::Array(vec![Object::Int(1)]), Type::Array(SimpleType::Int)),
        BOOL,
    );
    let (compiler, _) = generated(&arrays);
    assert_eq!(compiler.c_errors[0].description, "Binary expressions between arrays are not allowed");

    let voids = binary(
        BinaryExprType::LogicEQ,
        name("x", VOID, SymbolType::Var),
        name("y", VOID, SymbolType::Var),
        BOOL,
    );
    let (compiler, _) = generated(&voids);
    assert_eq!(
        compiler.c_errors[0].description,
        "Binary expressions between void oprands are not allowed"
    );

    // a node whose type is not the one that the table gives
    let wrong = binary(
        BinaryExprType::LogicLessThan,
        lit(Object::Int(1), INT),
        lit(Object::Int(2), INT),
        INT,
    );
    let (compiler, _) = generated(&wrong);
    assert_eq!(
        compiler.c_errors[0].description,
        "Invalid operand types for LogicLessThan: int and int"
    );

    let mixed = binary(
        BinaryExprType::Division,
        lit(Object::Int(1), INT),
        lit(Object::Real("2.0".to_string()), Type::Simple(SimpleType::Real)),
        INT,
    );
    let (compiler, _) = generated(&mixed);
    assert_eq!(compiler.c_errors[0].description, "Invalid operand types for Division: int and real");
}

#[test]
fn other_errors_of_the_generator() {
    let call = ASTNode::ProcedureCallStmt(ProcedureCallNode {
        position: pos(),
        args: vec![],
        target: "q".to_string(),
    });
    let print = ASTNode::PrintStmt(PrintStmtNode { to_print: Box::new(call), position: pos() });
    let (compiler, lines) = generated(&print);
    assert_eq!(compiler.c_errors.len(), 1);
    assert_eq!(compiler.c_errors[0].description, "Unable to print a void expression");
    assert_eq!(lines, vec!["q_return_ptr = &&ret_0;", "goto f_q;", "ret_0:"]);

    let (compiler, lines) = generated(&lit(Object::Int(0), VOID));
    assert_eq!(compiler.c_errors[0].description, "literal of type void?");
    assert!(lines.is_empty());
    let (compiler, _) = generated(&lit(Object::Array(vec![]), Type::Array(SimpleType::Void)));
    assert_eq!(compiler.c_errors[0].description, "Found array of void expressions");

    let (compiler, _) = generated(&name("f", INT, SymbolType::Function));
    assert_eq!(compiler.c_errors[0].description, "Expected variable name, found function name");
    let (compiler, _) = generated(&name("q", VOID, SymbolType::Procedure));
    assert_eq!(compiler.c_errors[0].description, "Expected variable name, found function name");

    let read = |target: ASTNode| {
        generated(&ASTNode::ReadStmt(ReadStmtNode {
            position: pos(),
            variable_to_read_in: Box::new(target),
        }))
        .0
    };
    assert_eq!(
        read(name("a", Type::Array(SimpleType::Int), SymbolType::Arr)).c_errors[0].description,
        "Trying to read into whole array"
    );
    assert_eq!(
        read(name("v", VOID, SymbolType::Var)).c_errors[0].description,
        "Trying to read into void expression"
    );
    assert_eq!(
        read(name("f", INT, SymbolType::Function)).c_errors[0].description,
        "Expected variable name, found function name"
    );
    assert_eq!(
        read(lit(Object::Int(1), INT)).c_errors[0].description,
        "Trying to read into an unknown variable"
    );

    let assign = |target: ASTNode| {
        generated(&ASTNode::VarReassignment(VarReassignmentExprNode {
            position: pos(),
            variable_to_reassign: Box::new(target),
            new_value: Box::new(lit(Object::Int(1), INT)),
        }))
    };
    let (compiler, lines) = assign(lit(Object::Int(2), INT));
    assert_eq!(compiler.c_errors[0].description, "Unknown variable to reassign");
    assert!(lines.is_empty());
    let (compiler, _) = assign(name("f", INT, SymbolType::Function));
    assert_eq!(compiler.c_errors[0].description, "Expected variable name, found function name");
    let (compiler, lines) = assign(name("x", INT, SymbolType::Param));
    assert!(compiler.c_errors.is_empty());
    assert_eq!(lines, vec!["last_int = 1;", "main_x = last_int;"]);
}

#[test]
fn the_generator_goes_on_after_an_error() {
    let mut compiler = Compiler::new();
    compiler.compile_ast(&lit(Object::Int(0), VOID));
    compiler.compile_ast(&lit(Object::Int(7), INT));
    compiler.compile_ast(&name("f", INT, SymbolType::Function));
    compiler.compile_ast(&lit(Object::Bool(true), BOOL));
    compiler.gen_source();
    assert_eq!(lines_of(&compiler), vec!["last_int = 7;", "last_bool = true;"]);
    assert_eq!(compiler.c_errors.len(), 2);
    assert!(matches!(compiler.state, State::Error));
}

#[test]
fn syntax_errors_leave_no_output() {
    let mut compiler = Compiler::new();
    let errors = compiler
        .compile("program p;\nbegin\nvar x : int;\nx := true;\nend".to_string())
        .unwrap_err();
    assert_eq!(errors.len(), 1);
    assert_eq!(
        errors[0].description,
        "Mismatching types in var assignment: expected int, found bool"
    );
    assert_eq!(compiler.get_source(), "");
    assert_eq!(compiler.label, 0);
    assert!(matches!(compiler.state, State::Sane));

    let mut compiler = Compiler::new();
    let text = compiler.compile_source("program p;\nbegin\nx := 1;\ny := 2;\nend".to_string());
    assert_eq!(text, "");
    assert!(matches!(compiler.state, State::Error));
    assert_eq!(compiler.s_errors.len(), 2);
    assert_eq!(compiler.s_errors[0].description, "Symbol not found: x");
    assert!(compiler.c_errors.is_empty());

    let mut compiler = Compiler::new();
    let text = compiler.compile_source("program p;\nbegin\nwriteln(1);\nend".to_string());
    assert!(matches!(compiler.state, State::Sane));
    assert_eq!(text, compiler.get_source());
    assert!(text.starts_with(HEADER));
    assert!(text.contains("main_block:\nlast_int = 1;\nprintf(\"%d\\n\", last_int);\nreturn 0;\n"));
    assert!(text.ends_with("return 0;\n\n}"));
}

#[test]
fn instructions_and_source_text() {
    let mut compiler = Compiler::new();
    assert_eq!(compiler.get_source(), "");
    assert_eq!(compiler.scope, "main");
    compiler.gen_source();
    assert_eq!(compiler.get_source(), format!("{}{}", HEADER, FOOTER));
    compiler.push_instruction("int x;".to_string());
    compiler.push_instruction_raw("x = ".to_string());
    compiler.push_instruction("1;".to_string());
    compiler.emit("y = 2;".to_string());
    compiler.emit_label("here".to_string());
    assert_eq!(compiler.get_source(), format!("{}{}", HEADER, FOOTER));
    compiler.gen_source();
    assert_eq!(
        compiler.get_source(),
        format!("{}int x;\nx = 1;\ny = 2;\nhere:\n{}", HEADER, FOOTER)
    );
    compiler.insert_header();
    compiler.insert_footer();
    assert!(compiler.get_source().starts_with(&format!("{}{}", HEADER, HEADER)));
    assert!(compiler.get_source().ends_with("\n}\n}"));
}

#[test]
fn labels_and_names() {
    let mut compiler = Compiler::new();
    assert_eq!(compiler.advance_label(), 0);
    assert_eq!(compiler.advance_label(), 1);
    assert_eq!(compiler.advance_label(), 2);
    assert_eq!(compiler.label, 3);
    compiler.label = usize::MAX;
    assert_eq!(compiler.advance_label(), usize::MAX);
    assert_eq!(compiler.label, usize::MAX);
    assert_eq!(Compiler::f_ret_value("f".to_string()), "f_return_value");
    assert_eq!(Compiler::f_ret_ptr("f".to_string()), "f_return_ptr");
    assert_eq!(Compiler::type_for_last(INT), "int");
    assert_eq!(Compiler::type_for_last(BOOL), "bool");
    assert_eq!(Compiler::type_for_last(Type::Simple(SimpleType::String)), "str");
    assert_eq!(Compiler::type_for_last(Type::Simple(SimpleType::Real)), "float");
    assert_eq!(Compiler::type_for_last(Type::Array(SimpleType::String)), "str_arr");
    assert_eq!(Compiler::type_for_last(Type::Array(SimpleType::Int)), "int_arr");
    assert_eq!(Compiler::last_of(Type::Array(SimpleType::Bool)), "last_bool_arr");
    assert_eq!(Compiler::storage_of("main", "Value"), "main_value");
    assert_eq!(Compiler::storage_of("f", "\u{c9}t\u{c9}"), "f_\u{e9}t\u{e9}");
    assert_eq!(Compiler::number(120), "120");
    compiler.enter("f");
    assert_eq!(compiler.scope_name(), "f");
    compiler.push_c_error(&lit(Object::Int(1), INT), "wrong");
    assert_eq!(compiler.c_errors[0].position, pos());
    assert_eq!(compiler.c_errors[0].description, "wrong");
    compiler.fail_at(Position::new(1, 1, 1), "worse");
    assert_eq!(compiler.c_errors[1].description, "worse");
    assert!(matches!(compiler.state, State::Error));
}

#[test]
fn program_name_is_printed() {
    let node = ASTNode::ProgramName(ProgramNameNode { name: tok(Kind::Identifier, "demo") });
    let (_, lines) = generated(&node);
    assert_eq!(lines, vec!["printf(\"demo\");"]);
}
