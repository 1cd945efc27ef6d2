use minipascal::base::errors::SyntaxError;
use minipascal::base::token::{Kind, Token};
use minipascal::scanner::position::Position;
use minipascal::scanner::Scanner;

fn token(scanner: &mut Scanner) -> Token {
    match scanner.next_token() {
        Ok(t) => t,
        Err(e) => panic!("Expected token, got error {}", e.description),
    }
}

fn error(scanner: &mut Scanner) -> SyntaxError {
    match scanner.next_token() {
        Ok(t) => panic!("Expected error, got token {}", t.to_string()),
        Err(e) => e,
    }
}

fn kinds(src: &str) -> Vec<Kind> {
    let mut scanner = Scanner::new(src.to_string());
    let mut out = Vec::new();
    loop {
        let t = token(&mut scanner);
        out.push(t.kind);
        if t.kind == Kind::Eof {
            return out;
        }
    }
}

#[test]
fn scanner_error_if_eof_before_closing_comment() {
    let mut scanner = Scanner::new("/* This is an unclosed comment".to_string());
    if let Ok(token) = scanner.next_token() {
        panic!("Expected error, got token {}", token.to_string())
    }
}

#[test]
fn scanner_error_if_eof_before_closing_comment_branch2() {
    let mut scanner = Scanner::new("/* This is an unclosed comment*".to_string());
    if let Ok(token) = scanner.next_token() {
        panic!("Expected error, got token {}", token.to_string())
    }
}

#[test]
fn scanner_error_if_single_dot() {
    let mut scanner = Scanner::new(".;".to_string());
    if let Ok(token) = scanner.next_token() {
        panic!("Expected error, got token {}", token.to_string())
    }
}

#[test]
fn scanner_error_if_single_dot_branch2() {
    let mut scanner = Scanner::new("; .".to_string());
    let _unused = scanner.next_token();
    if let Ok(token) = scanner.next_token() {
        panic!("Expected error, got token {}", token.to_string())
    }
}

#[test]
fn scans_an_assignment() {
    let mut scanner = Scanner::new("x := 10;".to_string());
    let t = token(&mut scanner);
    assert_eq!((t.kind, t.lexeme.as_str()), (Kind::Identifier, "x"));
    assert_eq!(t.position, Position::new(0, 1, 0));
    let t = token(&mut scanner);
    assert_eq!((t.kind, t.lexeme.as_str()), (Kind::ColonEqual, ":="));
    assert_eq!(t.position, Position::new(3, 1, 3));
    let t = token(&mut scanner);
    assert_eq!((t.kind, t.lexeme.as_str()), (Kind::LitInt, "10"));
    assert_eq!(t.position, Position::new(6, 1, 6));
    let t = token(&mut scanner);
    assert_eq!((t.kind, t.lexeme.as_str()), (Kind::Semicolon, ";"));
    let t = token(&mut scanner);
    assert_eq!((t.kind, t.lexeme.as_str()), (Kind::Eof, ""));
}

#[test]
fn eof_is_reproduced_indefinitely() {
    let mut scanner = Scanner::new("a".to_string());
    assert_eq!(token(&mut scanner).kind, Kind::Identifier);
    for _ in 0..5 {
        let t = token(&mut scanner);
        assert_eq!(t.kind, Kind::Eof);
        assert_eq!(t.lexeme, "");
    }
    let mut empty = Scanner::new(String::new());
    assert_eq!(token(&mut empty).kind, Kind::Eof);
    assert_eq!(token(&mut empty).kind, Kind::Eof);
}

#[test]
fn newline_counts_lines_and_resets_column() {
    let mut scanner = Scanner::new("ab\n  cd".to_string());
    let t = token(&mut scanner);
    assert_eq!(t.position, Position::new(1, 1, 1));
    let t = token(&mut scanner);
    assert_eq!(t.lexeme, "cd");
    assert_eq!(t.position, Position::new(6, 2, 3));
}

#[test]
fn punctuation_and_operators() {
    assert_eq!(
        kinds("( ) [ ] - + ; / * ! , = : := > >= < <="),
        vec![
            Kind::LeftParen,
            Kind::RightParen,
            Kind::LeftSquare,
            Kind::RightSquare,
            Kind::Minus,
            Kind::Plus,
            Kind::Semicolon,
            Kind::Slash,
            Kind::Star,
            Kind::Bang,
            Kind::Comma,
            Kind::Equal,
            Kind::Colon,
            Kind::ColonEqual,
            Kind::Greater,
            Kind::GreaterEqual,
            Kind::Less,
            Kind::LessEqual,
            Kind::Eof
        ]
    );
}

#[test]
fn lookahead_does_not_consume_on_mismatch() {
    let mut scanner = Scanner::new(":x>y<z".to_string());
    assert_eq!(token(&mut scanner).kind, Kind::Colon);
    let t = token(&mut scanner);
    assert_eq!((t.kind, t.lexeme.as_str()), (Kind::Identifier, "x"));
    assert_eq!(token(&mut scanner).kind, Kind::Greater);
    assert_eq!(token(&mut scanner).lexeme, "y");
    assert_eq!(token(&mut scanner).kind, Kind::Less);
    assert_eq!(token(&mut scanner).lexeme, "z");
    let mut at_end = Scanner::new(":".to_string());
    assert_eq!(token(&mut at_end).kind, Kind::Colon);
    assert_eq!(token(&mut at_end).kind, Kind::Eof);
}

#[test]
fn keywords_are_matched_exactly() {
    assert_eq!(
        kinds("var in do end begin read writeln assert int real string bool if then else false true program function procedure array of return while or and"),
        vec![
            Kind::Var,
            Kind::In,
            Kind::Do,
            Kind::End,
            Kind::Begin,
            Kind::Read,
            Kind::Print,
            Kind::Assert,
            Kind::TInt,
            Kind::TReal,
            Kind::TString,
            Kind::TBool,
            Kind::If,
            Kind::Then,
            Kind::Else,
            Kind::False,
            Kind::True,
            Kind::Program,
            Kind::Function,
            Kind::Procedure,
            Kind::TArray,
            Kind::Of,
            Kind::Return,
            Kind::While,
            Kind::Or,
            Kind::And,
            Kind::Eof
        ]
    );
    assert_eq!(
        kinds("Var VAR vars va begin_ x_1 print"),
        vec![
            Kind::Identifier,
            Kind::Identifier,
            Kind::Identifier,
            Kind::Identifier,
            Kind::Identifier,
            Kind::Identifier,
            Kind::Identifier,
            Kind::Eof
        ]
    );
}

#[test]
fn numbers() {
    let mut scanner = Scanner::new("12 1.5 1.5e-3 2.0e+7 1.5-3 1.5e3e4 7e".to_string());
    let expected = [
        (Kind::LitInt, "12"),
        (Kind::LitReal, "1.5"),
        (Kind::LitReal, "1.5e-3"),
        (Kind::LitReal, "2.0e+7"),
        (Kind::LitReal, "1.5"),
        (Kind::Minus, "-"),
        (Kind::LitInt, "3"),
        (Kind::LitReal, "1.5e3"),
        (Kind::Identifier, "e4"),
        (Kind::LitInt, "7"),
        (Kind::Identifier, "e"),
        (Kind::Eof, ""),
    ];
    for (kind, lexeme) in expected {
        let t = token(&mut scanner);
        assert_eq!((t.kind, t.lexeme.as_str()), (kind, lexeme));
    }
}

#[test]
fn string_literal_with_every_escape() {
    let mut scanner = Scanner::new("\"a\\nb\\tc\\rd\\\\e\\\"f\\'g\" x".to_string());
    let t = token(&mut scanner);
    assert_eq!(t.kind, Kind::LitString);
    assert_eq!(t.lexeme, "a\nb\tc\rd\\e\"f'g");
    assert_eq!(token(&mut scanner).lexeme, "x");
}

#[test]
fn text_without_backslash_is_kept() {
    let mut scanner = Scanner::new("\"plain text, nothing to replace\"".to_string());
    assert_eq!(token(&mut scanner).lexeme, "plain text, nothing to replace");
    let mut unknown = Scanner::new("\"a\\qb\\\"".to_string());
    // a backslash that starts no escape sequence stays; the last quote is escaped
    assert_eq!(
        error(&mut unknown).description,
        "Reached EOF while scanning string"
    );
    let mut kept = Scanner::new("\"a\\qb\"".to_string());
    assert_eq!(token(&mut kept).lexeme, "a\\qb");
}

#[test]
fn unterminated_string_is_an_error() {
    let mut scanner = Scanner::new("x \"abc".to_string());
    assert_eq!(token(&mut scanner).lexeme, "x");
    let e = error(&mut scanner);
    assert_eq!(e.description, "Reached EOF while scanning string");
    assert_eq!(e.raw_line, "x \"abc");
    assert_eq!(e.position, Position::new(6, 1, 6));
    assert_eq!(token(&mut scanner).kind, Kind::Eof);
}

#[test]
fn comments_are_dropped() {
    assert_eq!(
        kinds("{* a comment *} x /* another * one */ y // to the end\nz"),
        vec![Kind::Identifier, Kind::Identifier, Kind::Identifier, Kind::Eof]
    );
    let mut scanner = Scanner::new("// first\nx".to_string());
    assert_eq!(token(&mut scanner).position, Position::new(9, 2, 0));
    let mut closing_only = Scanner::new("{* {* inner *} x".to_string());
    assert_eq!(token(&mut closing_only).lexeme, "x");
    let mut tight = Scanner::new("{**}x".to_string());
    assert_eq!(token(&mut tight).lexeme, "x");
    let mut not_closed = Scanner::new("{*}x".to_string());
    assert_eq!(
        error(&mut not_closed).description,
        "Reached EOF before closing comment"
    );
}

#[test]
fn unclosed_block_comment_is_an_error() {
    let mut scanner = Scanner::new("x {* never closed\n y".to_string());
    assert_eq!(token(&mut scanner).lexeme, "x");
    let e = error(&mut scanner);
    assert_eq!(e.description, "Reached EOF before closing comment");
    assert_eq!(token(&mut scanner).kind, Kind::Eof);
}

#[test]
fn unknown_characters_are_an_error_and_scanning_goes_on() {
    let mut scanner = Scanner::new("a @#$ b".to_string());
    assert_eq!(token(&mut scanner).lexeme, "a");
    let e = error(&mut scanner);
    assert_eq!(e.description, "Unknown token: @#$");
    assert_eq!(e.raw_line, "a @#$ b");
    assert_eq!(token(&mut scanner).lexeme, "b");
    assert_eq!(token(&mut scanner).kind, Kind::Eof);
}

#[test]
fn lone_brace_errors() {
    let mut scanner = Scanner::new("{x".to_string());
    assert_eq!(error(&mut scanner).description, "Unknown token: x");
    assert_eq!(token(&mut scanner).lexeme, "x");
    let mut at_end = Scanner::new("{".to_string());
    assert_eq!(
        error(&mut at_end).description,
        "Unexpected End Of File wile reading the source"
    );
}

#[test]
fn error_carries_the_line_it_is_on() {
    let mut scanner = Scanner::new("x := 1;\ny := @;".to_string());
    for _ in 0..6 {
        token(&mut scanner);
    }
    let e = error(&mut scanner);
    assert_eq!(e.raw_line, "y := @;");
    assert_eq!(e.position.line, 2);
}

#[test]
fn lines_of_the_source() {
    let scanner = Scanner::new("a\r\nb\n\nc".to_string());
    assert_eq!(scanner.line(0), "a");
    assert_eq!(scanner.line(1), "b");
    assert_eq!(scanner.line(2), "");
    assert_eq!(scanner.line(3), "c");
    assert_eq!(scanner.line(4), "");
    assert_eq!(scanner.line(usize::MAX), "");
    assert_eq!(scanner.curr_line(), "a");
    let ends_with_newline = Scanner::new("a\n".to_string());
    assert_eq!(ends_with_newline.line(0), "a");
    assert_eq!(ends_with_newline.line(1), "");
    let carriage = Scanner::new("a\r".to_string());
    assert_eq!(carriage.line(0), "a\r");
}

#[test]
fn characters_one_at_a_time() {
    let mut scanner = Scanner::new("ab".to_string());
    assert!(!scanner.is_at_end());
    assert_eq!(scanner.get_current(), Some('a'));
    assert_eq!(scanner.get_next(), Some('b'));
    scanner.go_back();
    assert_eq!(scanner.get_current(), Some('a'));
    assert_eq!(scanner.advance(), Some('a'));
    assert_eq!(scanner.advance(), Some('b'));
    assert_eq!(scanner.get_next(), None);
    scanner.go_back();
    assert_eq!(scanner.get_current(), Some('a'));
    scanner.go_back();
    assert_eq!(scanner.get_current(), Some('a'));
    assert_eq!(scanner.advance(), Some('b'));
    assert_eq!(scanner.advance(), None);
    assert!(scanner.is_at_end());
    assert_eq!(scanner.advance(), None);
    assert_eq!(scanner.get_current(), None);
    assert_eq!(scanner.remaining(), 0);
}

#[test]
fn whitespace_of_unicode_is_dropped() {
    assert_eq!(
        kinds("a\u{00A0}b\u{2003}c\t\r d"),
        vec![Kind::Identifier, Kind::Identifier, Kind::Identifier, Kind::Identifier, Kind::Eof]
    );
    let mut scanner = Scanner::new("caf\u{e9} \u{3b1}\u{3b2}".to_string());
    assert_eq!(token(&mut scanner).lexeme, "caf\u{e9}");
    assert_eq!(token(&mut scanner).lexeme, "\u{3b1}\u{3b2}");
}

#[test]
fn words_and_spaces_outside_ascii() {
    assert_eq!(kinds("été := 1;"), vec![Kind::Identifier, Kind::ColonEqual, Kind::LitInt, Kind::Semicolon, Kind::Eof]);
    assert_eq!(kinds("a\u{85}b\u{a0}c\u{3000}d\u{2003}e"), vec![Kind::Identifier; 5].into_iter().chain([Kind::Eof]).collect::<Vec<Kind>>());
    assert_eq!(kinds("x\ty\u{b}z\u{c}w\rv"), vec![Kind::Identifier; 5].into_iter().chain([Kind::Eof]).collect::<Vec<Kind>>());
}
