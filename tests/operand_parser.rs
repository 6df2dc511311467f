use asm6502::expression::{Expr, Operator};
use asm6502::operand_parser::{parse_bin_op, parse_expr, parse_identifier};

#[test]
fn test_parse_identifier_with_single_letter() {
    assert_eq!(
        parse_identifier("A"),
        Ok(("", Expr::Identifier("A".to_string())))
    );
}

#[test]
fn test_parse_identifier_with_number() {
    assert_eq!(
        parse_identifier("A1"),
        Ok(("", Expr::Identifier("A1".to_string())))
    );
}

#[test]
fn test_parse_identifier_with_underscore() {
    assert_eq!(
        parse_identifier("A_1"),
        Ok(("", Expr::Identifier("A_1".to_string())))
    );
}

#[test]
fn test_parse_identifier_with_dot_and_num() {
    assert_eq!(
        parse_identifier(".1"),
        Ok(("", Expr::Identifier(".1".to_string())))
    );
}

#[test]
fn test_parse_identifier_with_dot() {
    assert_eq!(
        parse_identifier(".A1"),
        Ok(("", Expr::Identifier(".A1".to_string())))
    );
}

#[test]
fn test_parse_identifier_with_unexpected_character() {
    assert_eq!(
        parse_identifier("A-1"),
        Ok(("-1", Expr::Identifier("A".to_string())))
    );
}

#[test]
fn test_parse_binop() {
    assert_eq!(
        parse_bin_op("=,.skip"),
        Ok((
            "",
            Expr::BinOp(
                Box::new(Expr::SystemOperator('='.to_string())),
                Operator::Comma,
                Box::new(Expr::Identifier(".skip".to_string()))
            )
        ))
    );
    let expression = "1,2,3,4";
    assert_eq!(
        parse_bin_op(expression),
        Ok((
            "",
            Expr::BinOp(
                Box::new(Expr::DecimalNum(1)),
                Operator::Comma,
                Box::new(Expr::BinOp(
                    Box::new(Expr::DecimalNum(2)),
                    Operator::Comma,
                    Box::new(Expr::BinOp(
                        Box::new(Expr::DecimalNum(3)),
                        Operator::Comma,
                        Box::new(Expr::DecimalNum(4))
                    ))
                ))
            )
        ))
    );
}

#[test]
fn test_parse_expr() {
    assert_eq!(
        parse_expr("A>$A"),
        Ok((
            "",
            Expr::BinOp(
                Box::new(Expr::Identifier("A".to_string())),
                Operator::Greater,
                Box::new(Expr::ByteNum(10))
            )
        ))
    );
    assert_eq!(
        parse_expr(".skip"),
        Ok(("", Expr::Identifier(".skip".to_string())))
    );
}

#[test]
fn test_parse_sysop() {
    assert_eq!(
        parse_expr("+"),
        Ok(("", Expr::SystemOperator('+'.to_string())))
    );
}

#[test]
fn test_parse_sysop_double() {
    assert_eq!(
        parse_expr("++"),
        Ok(("", Expr::SystemOperator("++".to_string())))
    );
}

#[test]
fn test_parse_sysop_mixed() {
    assert_eq!(
        parse_expr("+-"),
        Ok(("", Expr::SystemOperator("+-".to_string())))
    );
}

#[test]
fn operand_forms() {
    let cases = vec![
        ("$12", Expr::ByteNum(0x12)),
        ("$1234", Expr::WordNum(0x1234)),
        ("$012", Expr::WordNum(0x12)),
        ("%101", Expr::ByteNum(5)),
        ("%100000000", Expr::WordNum(256)),
        ("'A'", Expr::ByteNum(0x41)),
        ("65535", Expr::DecimalNum(65535)),
        (">label", Expr::HiByte(Box::new(Expr::Identifier("label".to_string())))),
        ("[ptr]+Y", Expr::BinOp(
            Box::new(Expr::Bracketed(Box::new(Expr::Identifier("ptr".to_string())))),
            Operator::Add,
            Box::new(Expr::Identifier("Y".to_string())),
        )),
        ("\"hi\"", Expr::StringLiteral("hi".to_string())),
        ("~", Expr::SystemOperator("~".to_string())),
    ];
    for (text, expected) in cases {
        assert_eq!(Expr::parse(text).unwrap(), expected, "{}", text);
    }
    assert_eq!(Expr::parse("").unwrap(), Expr::Empty);
    assert!(Expr::parse("70000").is_err());
    assert!(matches!(Expr::parse("{"), Err(asm6502::error::AssemblyError::Syntax(_))));
}
