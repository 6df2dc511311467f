use asm6502::expression::{self, Expr};
use asm6502::line_parser::{detect_include_directive, parse_line, parse_token, tokenize};

#[test]
fn test_parse_assignemnt_decimal() {
    let statement = parse_token("A=1").unwrap();
    assert_eq!(statement.command, Expr::Identifier("A".to_string()));
    assert_eq!(statement.expression, Expr::DecimalNum(1));
}

#[test]
fn test_parse_assignemnt_hex() {
    let statement = parse_token("A=$10").unwrap();
    assert_eq!(statement.command, Expr::Identifier("A".to_string()));
    assert_eq!(statement.expression, Expr::ByteNum(0x10));
}

#[test]
fn test_parse_assignment_zerox() {
    let statement = parse_token("A=$10+X").unwrap();
    assert_eq!(statement.command, Expr::Identifier("A".to_string()));
    assert_eq!(
        statement.expression,
        Expr::BinOp(
            Box::new(Expr::ByteNum(0x10)),
            expression::Operator::Add,
            Box::new(Expr::Identifier("X".to_string()))
        )
    );
}

#[test]
fn test_parse_label_def() {
    let statement = parse_token(":=$80FF").unwrap();
    assert_eq!(statement.command, Expr::SystemOperator(':'.to_string()));
    assert_eq!(statement.expression, Expr::WordNum(0x80FF));
}

#[test]
fn test_parse_sta() {
    let statement = parse_token("($10)=A").unwrap();
    assert_eq!(
        statement.command,
        Expr::Parenthesized(Box::new(Expr::ByteNum(0x10)))
    );
    assert_eq!(statement.expression, Expr::Identifier("A".to_string()));
}

#[test]
fn test_parse_token_ifeq() {
    let statement = parse_token(";==,.skip").unwrap();
    assert_eq!(statement.command, Expr::SystemOperator(';'.to_string()));
    assert_eq!(
        statement.expression,
        Expr::BinOp(
            Box::new(Expr::SystemOperator('='.to_string())),
            expression::Operator::Comma,
            Box::new(Expr::Identifier(".skip".to_string()))
        )
    );
}

#[test]
fn test_tokenize() {
    let tokens = tokenize("@ A=1 B=2 C=\"hello world\",0 (0)=A");
    assert_eq!(tokens.len(), 5);
    assert_eq!(tokens[0], "@");
    assert_eq!(tokens[1], "A=1");
    assert_eq!(tokens[2], "B=2");
    assert_eq!(tokens[3], "C=\"hello world\",0");
    assert_eq!(tokens[4], "(0)=A");
}

#[test]
fn lines_have_labels_and_statements() {
    let line = parse_line("MAIN X=$05 A=X ;; start", 3).unwrap();
    assert_eq!(line.line_number, 3);
    assert_eq!(line.label, Some("MAIN".to_string()));
    assert_eq!(line.statements.len(), 2);
    let line = parse_line("  #=!", 4).unwrap();
    assert_eq!(line.label, None);
    assert_eq!(line.statements[0].command, Expr::SystemOperator("#".to_string()));
    let line = parse_line(".loop", 5).unwrap();
    assert_eq!(line.label, Some(".loop".to_string()));
    assert!(line.statements.is_empty());
    assert!(parse_line("  A={", 6).is_err());
}

#[test]
fn test_detect_include_directive() {
    let s = "    +=\"foo.inc\"";
    assert_eq!(detect_include_directive(s), Some("foo.inc".to_string()));
}

#[test]
fn test_detect_include_directive_empty_name() {
    let s = "    +=\"\"";
    assert_eq!(detect_include_directive(s), None);
}

#[test]
fn include_directive_needs_leading_space() {
    assert_eq!(detect_include_directive("+=\"a.inc\""), None);
    assert_eq!(detect_include_directive("\t+=\"dir/a.inc\"  "), Some("dir/a.inc".to_string()));
    assert_eq!(detect_include_directive("  +=\"a.inc\" x"), None);
}
