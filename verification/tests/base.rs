use minipascal::base::ast::BinaryExprType;
use minipascal::base::errors::{CompilationError, EvaluationError, MiniPLError, SyntaxError};
use minipascal::base::objects::Object;
use minipascal::base::symbol_table::{Symbol, SymbolTable, SymbolType};
use minipascal::base::token::{Kind, Token};
use minipascal::base::types::{SimpleType, Type};
use minipascal::base::variable::Variable;
use minipascal::compiler::source_control::SourceControl;
use minipascal::scanner::position::Position;

const INT: Type = Type::Simple(SimpleType::Int);
const REAL: Type = Type::Simple(SimpleType::Real);
const STRING: Type = Type::Simple(SimpleType::String);
const BOOL: Type = Type::Simple(SimpleType::Bool);
const VOID: Type = Type::Simple(SimpleType::Void);

#[test]
fn types_are_equal_by_tag_and_base() {
    assert_eq!(Type::Simple(SimpleType::Int), Type::Simple(SimpleType::Int));
    assert_ne!(Type::Simple(SimpleType::Int), Type::Array(SimpleType::Int));
    assert_ne!(Type::Array(SimpleType::Int), Type::Array(SimpleType::Bool));
    assert_eq!(Type::Array(SimpleType::Real).internal(), SimpleType::Real);
    assert_eq!(Type::Simple(SimpleType::String).internal(), SimpleType::String);
}

#[test]
fn names_of_types() {
    assert_eq!(SimpleType::Int.to_c_type(), "int");
    assert_eq!(SimpleType::String.to_c_type(), "*char");
    assert_eq!(SimpleType::Bool.to_c_type(), "bool");
    assert_eq!(SimpleType::Real.to_c_type(), "float");
    assert_eq!(SimpleType::Void.to_c_type(), "void");
    assert_eq!(Type::Array(SimpleType::Int).to_c_type(), "*int");
    assert_eq!(Type::Simple(SimpleType::Bool).to_string(), "bool");
    assert_eq!(Type::Array(SimpleType::String).to_string(), "array of string");
    assert_eq!(SimpleType::Real.to_string(), "real");
    assert!(SimpleType::Int.is_numeric());
    assert!(SimpleType::Real.is_numeric());
    assert!(!SimpleType::String.is_numeric());
}

#[test]
fn the_table_of_legal_operands() {
    let all = [INT, REAL, STRING, BOOL, VOID, Type::Array(SimpleType::Int)];
    let comparisons = [
        BinaryExprType::LogicGreaterThan,
        BinaryExprType::LogicGreaterThanEQ,
        BinaryExprType::LogicLessThan,
        BinaryExprType::LogicLessThanEQ,
    ];
    for l in all {
        for r in all {
            let same = l == r;
            assert_eq!(
                BinaryExprType::Addition.result_type(l, r),
                if same && (l == INT || l == REAL || l == STRING) { Some(l) } else { None }
            );
            assert_eq!(
                BinaryExprType::Subtraction.result_type(l, r),
                if same && (l == INT || l == REAL) { Some(l) } else { None }
            );
            for op in [BinaryExprType::Multiplication, BinaryExprType::Division] {
                assert_eq!(op.result_type(l, r), if same && l == INT { Some(INT) } else { None });
            }
            for op in comparisons {
                assert_eq!(
                    op.result_type(l, r),
                    if same && (l == INT || l == REAL) { Some(BOOL) } else { None }
                );
            }
            assert_eq!(
                BinaryExprType::LogicEQ.result_type(l, r),
                if same && (l == INT || l == REAL || l == STRING || l == BOOL) { Some(BOOL) } else { None }
            );
            assert_eq!(BinaryExprType::LogicAND.result_type(l, r), if same && l == BOOL { Some(BOOL) } else { None });
        }
    }
}

#[test]
fn operators_of_tokens() {
    assert_eq!(BinaryExprType::from_kind(Kind::Plus), Some(BinaryExprType::Addition));
    assert_eq!(BinaryExprType::from_kind(Kind::Minus), Some(BinaryExprType::Subtraction));
    assert_eq!(BinaryExprType::from_kind(Kind::Star), Some(BinaryExprType::Multiplication));
    assert_eq!(BinaryExprType::from_kind(Kind::Slash), Some(BinaryExprType::Division));
    assert_eq!(BinaryExprType::from_kind(Kind::And), Some(BinaryExprType::LogicAND));
    assert_eq!(BinaryExprType::from_kind(Kind::Equal), Some(BinaryExprType::LogicEQ));
    assert_eq!(BinaryExprType::from_kind(Kind::LessEqual), Some(BinaryExprType::LogicLessThanEQ));
    assert_eq!(BinaryExprType::from_kind(Kind::Bang), None);
    assert_eq!(BinaryExprType::LogicEQ.to_c_operator(), "==");
    assert_eq!(BinaryExprType::LogicAND.to_c_operator(), "&&");
    assert_eq!(BinaryExprType::LogicGreaterThanEQ.to_c_operator(), ">=");
    assert_eq!(BinaryExprType::Division.to_string(), "Division");
}

#[test]
fn kinds_in_messages() {
    assert_eq!(Kind::LeftParen.to_string(), "(");
    assert_eq!(Kind::ColonEqual.to_string(), ":=");
    assert_eq!(Kind::Greater.to_string(), ">");
    assert_eq!(Kind::Eof.to_string(), "End Of File");
    assert_eq!(Kind::Identifier.to_string(), "Identifier");
    assert_eq!(Kind::from_word("while"), Kind::While);
    assert_eq!(Kind::from_word("While"), Kind::Identifier);
    assert_eq!(Kind::from_word(""), Kind::Identifier);
    let t = Token::new(Kind::End, "end".to_string(), Position::new(3, 1, 3));
    assert_eq!(t.to_string(), "end");
    let copy = t.clone();
    assert_eq!(copy.kind, Kind::End);
    assert_eq!(copy.lexeme, "end");
    assert_eq!(copy.position, t.position);
}

#[test]
fn positions() {
    let p = Position::new(17, 3, 4);
    assert_eq!(p.char_number, 17);
    assert_eq!(p.line, 3);
    assert_eq!(p.col, 4);
    assert_eq!(p.to_string(), "3:4");
    assert_eq!(Position::new(0, -1, 0).to_string(), "-1:0");
}

#[test]
fn literals_in_generated_code() {
    assert_eq!(Object::Int(42).to_c_lit(), "42");
    assert_eq!(Object::Int(-5).to_c_lit(), "-5");
    assert_eq!(Object::Real("1.5e-3".to_string()).to_c_lit(), "1.5e-3");
    assert_eq!(Object::Bool(true).to_c_lit(), "true");
    assert_eq!(Object::Bool(false).to_c_lit(), "false");
    assert_eq!(Object::String("hi".to_string()).to_c_lit(), "\"hi\"");
    assert_eq!(Object::String("a\"b\n".to_string()).to_c_lit(), "\"a\\\"b\\n\"");
    assert_eq!(
        Object::Array(vec![Object::Int(1), Object::Int(2), Object::Int(3)]).to_c_lit(),
        "{1,2,3}"
    );
    assert_eq!(Object::Array(vec![Object::Bool(true)]).to_c_lit(), "{true}");
    assert_eq!(Object::Array(vec![]).to_c_lit(), "{}");
    assert_eq!(
        Object::Array(vec![Object::Array(vec![Object::Int(1)]), Object::Array(vec![])]).to_c_lit(),
        "{{1},{}}"
    );
    assert_eq!(Object::Int(1).get_simple_type(), Some(SimpleType::Int));
    assert_eq!(Object::Array(vec![]).get_simple_type(), None);
}

fn symbol(name: &str, s_type: SymbolType, r_type: Type, line: i64) -> Symbol {
    Symbol::plain(name.to_string(), s_type, r_type, Position::new(0, line, 0))
}

#[test]
fn symbol_table_looks_names_up_without_case() {
    let mut table = SymbolTable::new();
    assert_eq!(table.len(), 0);
    assert!(table.get("x".to_string()).is_none());
    table.push(symbol("Counter", SymbolType::Var, INT, 1));
    table.push(symbol("name", SymbolType::Param, STRING, 2));
    table.push(symbol("COUNTER", SymbolType::Arr, Type::Array(SimpleType::Int), 3));
    assert_eq!(table.len(), 3);
    let found = table.get("counter".to_string()).unwrap();
    assert_eq!(found.name, "COUNTER");
    assert_eq!(found.position.line, 3);
    assert_eq!(found.s_type, SymbolType::Arr);
    let found = table.find("Counter").unwrap();
    assert_eq!(found.position.line, 3);
    table.push(symbol("counter", SymbolType::Param, INT, 4));
    assert_eq!(table.get("COUNTER".to_string()).unwrap().position.line, 4);
    assert_eq!(table.len(), 4);
    assert_eq!(table.symbols[0].name, "Counter");
    assert_eq!(table.get("NAME".to_string()).unwrap().r_type, STRING);
    assert!(table.find("nam").is_none());
    assert!(table.find("names").is_none());
    let copy = table.copy_entries();
    assert_eq!(copy.len(), 4);
    assert_eq!(copy.symbols[2].name, "COUNTER");
    assert_eq!(copy.symbols[2].s_type, SymbolType::Arr);
    assert!(copy.symbols[0].args.is_none());
    assert!(SymbolType::Var.storage());
    assert!(SymbolType::Arr.storage());
    assert!(!SymbolType::Function.storage());
    assert!(!SymbolType::Procedure.storage());
}

#[test]
fn errors_are_laid_out() {
    let e = SyntaxError::new(Position::new(9, 3, 4), "x := ;".to_string(), "Unexpected token ;".to_string());
    assert_eq!(
        e.layout("Syntax error", "Unexpected token ;", "x := ;"),
        "Syntax error in 3:4 > Unexpected token ;\n\n\t3 |\tx := ;\n"
    );
    let shown = e.get_error();
    assert!(shown.contains("Syntax error"));
    assert!(shown.contains(" in 3:4 > "));
    assert!(shown.contains("Unexpected token ;"));
    assert!(shown.contains("\n\n\t3 |\t"));
    assert!(shown.contains("x := ;"));
    assert!(shown.ends_with("\n"));
    let copy = e.clone();
    assert_eq!(copy.description, e.description);
    assert_eq!(copy.raw_line, e.raw_line);
    assert_eq!(copy.position, e.position);

    let v = EvaluationError::new(Position::new(0, 1, 2), "Uninitialized".to_string());
    assert_eq!(v.layout("Evaluation error", "Uninitialized"), "Evaluation error in 1:2 > Uninitialized\n");
    assert!(v.get_error().contains(" in 1:2 > "));

    let c = CompilationError::new(Position::new(0, 7, 1), "Unable to print a void expression".to_string());
    assert_eq!(
        c.layout("Compilation error", "Unable to print a void expression"),
        "Compilation error in 7:1 > Unable to print a void expression\n\n\t7"
    );
    assert!(c.get_error().contains("Compilation error"));
    assert!(c.get_error().ends_with("\n\n\t7"));
}

#[test]
fn source_control_lays_instructions_out() {
    let mut sc = SourceControl::new();
    sc.gen_source();
    assert_eq!(sc.get_source(), "#include <stdio.h>\nint main(){\n\n}");
    sc.push_instruction("int x;".to_string());
    sc.push_instruction("x = 1;".to_string());
    assert_eq!(sc.get_source(), "#include <stdio.h>\nint main(){\n\n}");
    sc.gen_source();
    assert_eq!(sc.get_source(), "#include <stdio.h>\nint main(){\n\tint x;\n\tx = 1;\n\n}");
    sc.incr_indent();
    sc.gen_source();
    assert_eq!(sc.get_source(), "#include <stdio.h>\nint main(){\n\t\tint x;\n\t\tx = 1;\n\n}");
    sc.decr_indent();
    sc.decr_indent();
    sc.decr_indent();
    sc.gen_source();
    assert_eq!(sc.get_source(), "#include <stdio.h>\nint main(){\n\tint x;\n\tx = 1;\n\n}");
    sc.insert_header();
    sc.insert_footer();
    assert!(sc.get_source().starts_with("#include <stdio.h>\nint main(){\n#include <stdio.h>\n"));
    assert!(sc.get_source().ends_with("\n}\n}"));
}

#[test]
fn variables_in_their_three_forms() {
    let v = Variable::from_int(-5);
    assert_eq!(v.actual_type, minipascal::base::variable::Type::Integer);
    assert_eq!(v.int_value, -5);
    assert_eq!(v.string_value, "-5");
    assert!(v.bool_value);
    let zero = Variable::from_int(0);
    assert_eq!(zero.string_value, "0");
    assert!(!zero.bool_value);

    let cases: [(&str, i64, bool); 10] = [
        ("42", 42, true),
        ("-7", -7, true),
        ("+3", 3, true),
        ("007", 7, true),
        ("", 0, false),
        ("abc", 1, true),
        ("-", 1, true),
        ("4 2", 1, true),
        ("9223372036854775808", 1, true),
        ("-9223372036854775808", i64::MIN, true),
    ];
    for (text, number, truth) in cases.iter() {
        let v = Variable::from_string(text.to_string());
        assert_eq!(v.actual_type, minipascal::base::variable::Type::String);
        assert_eq!(v.int_value, *number, "{:?}", text);
        assert_eq!(v.string_value, *text);
        assert_eq!(v.bool_value, *truth);
        assert_eq!(
            v.int_value,
            text.parse::<i64>().unwrap_or(if text.is_empty() { 0 } else { 1 })
        );
    }

    let t = Variable::from_bool(true);
    assert_eq!(t.actual_type, minipascal::base::variable::Type::Boolean);
    assert_eq!((t.int_value, t.string_value.as_str(), t.bool_value), (1, "true", true));
    let f = Variable::from_bool(false);
    assert_eq!((f.int_value, f.string_value.as_str(), f.bool_value), (0, "false", false));

    let mut v = Variable::from_int(9);
    v.make_string();
    assert_eq!(v.actual_type, minipascal::base::variable::Type::String);
    assert_eq!((v.int_value, v.string_value.as_str(), v.bool_value), (9, "9", true));
    v.make_bool();
    assert_eq!(v.actual_type, minipascal::base::variable::Type::Boolean);
    v.make_int();
    assert_eq!(v.actual_type, minipascal::base::variable::Type::Integer);
    let copy = v.clone();
    assert_eq!(copy.string_value, "9");
    assert_eq!(minipascal::base::variable::Type::Boolean.to_string(), "Boolean");
    assert_eq!(minipascal::base::variable::Type::String.to_string(), "String");
    assert_eq!(minipascal::base::variable::Type::Integer.to_string(), "Integer");
}

#[test]
fn symbols_tables_and_values_as_they_are_shown() {
    assert_eq!(SymbolType::VarParam.to_string(), "VarParam");
    assert_eq!(SymbolType::Arr.to_string(), "Arr");
    assert_eq!(SymbolType::Function.to_string(), "Function");
    let x = symbol("x", SymbolType::Var, Type::Simple(SimpleType::Int), 1);
    assert_eq!(x.to_string(), "(Var, int)");
    let a = symbol("a", SymbolType::Arr, Type::Array(SimpleType::Bool), 2);
    assert_eq!(a.to_string(), "(Arr, array of bool)");
    let mut table = SymbolTable::new();
    assert_eq!(table.to_string(), "");
    table.push(x);
    assert_eq!(table.to_string(), ", (x, (Var, int))");
    table.push(a);
    assert_eq!(table.to_string(), ", (x, (Var, int)), (a, (Arr, array of bool))");

    assert_eq!(Object::Int(-3).to_string(), "(v: -3, t: int)");
    assert_eq!(Object::String("a b".to_string()).to_string(), "(v: a b, t: string)");
    assert_eq!(Object::Bool(true).to_string(), "(v: true, t: bool)");
    assert_eq!(Object::Bool(false).to_string(), "(v: false, t: bool)");
    assert_eq!(Object::Real("1.5e3".to_string()).to_string(), "(v: 1.5e3, t: real)");
    assert_eq!(Object::Array(vec![Object::Int(1)]).to_string(), "(v: string, t: array)");
}

#[test]
fn copies_hold_what_the_original_holds() {
    let mut params = SymbolTable::new();
    params.push(symbol("a", SymbolType::Param, INT, 1));
    params.push(symbol("b", SymbolType::VarParam, STRING, 1));
    let mut f = symbol("f", SymbolType::Function, INT, 1);
    f.args = Some(Box::new(params));
    let mut table = SymbolTable::new();
    table.push(symbol("x", SymbolType::Var, INT, 2));
    table.push(f);

    let copy = table.clone();
    assert_eq!(copy.len(), 2);
    assert_eq!(copy.to_string(), table.to_string());
    let g = copy.get("F".to_string()).unwrap();
    assert_eq!(g.name, "f");
    assert_eq!(g.s_type, SymbolType::Function);
    let args = g.args.unwrap();
    assert_eq!(args.len(), 2);
    assert_eq!(args.symbols[1].name, "b");
    assert_eq!(args.symbols[1].s_type, SymbolType::VarParam);
    let again = table.symbols[1].clone();
    assert_eq!(again.args.unwrap().symbols[0].name, "a");

    let value = Object::Array(vec![
        Object::Int(1),
        Object::String("a\"b".to_string()),
        Object::Array(vec![Object::Bool(true), Object::Real("2.5".to_string())]),
    ]);
    assert_eq!(value.clone().to_c_lit(), value.to_c_lit());
    assert_eq!(value.copy().to_c_lit(), "{1,\"a\\\"b\",{true,2.5}}");

    let t = Token::new(Kind::Identifier, "abc".to_string(), Position::new(1, 2, 3));
    assert_eq!(t.clone(), t);
    assert_ne!(t, Token::new(Kind::Identifier, "abd".to_string(), Position::new(1, 2, 3)));
    assert_ne!(t, Token::new(Kind::LitString, "abc".to_string(), Position::new(1, 2, 3)));
    let mut seen = std::collections::HashSet::new();
    seen.insert(t.clone());
    assert!(seen.contains(&t));
}
