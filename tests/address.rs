use asm6502::error::AssemblyError;
use asm6502::expression::{Expr, Operator};
use asm6502::labels::{Address, LabelEntry, LabelTable};

#[test]
fn zero_page_arithmetic_wraps_in_the_zero_page() {
    let a = Address::ZeroPage(0xF0);
    let b = Address::ZeroPage(0x20);
    assert_eq!(a.calculate_with(&b, &Operator::Add).unwrap(), Address::ZeroPage(0x10));
    assert_eq!(b.calculate_with(&a, &Operator::Sub).unwrap(), Address::ZeroPage(0x30));
    assert_eq!(a.calculate_with(&b, &Operator::And).unwrap(), Address::ZeroPage(0x20));
}

#[test]
fn full_operand_promotes() {
    let f = Address::Full(0x1000);
    let z = Address::ZeroPage(0x10);
    assert_eq!(f.calculate_with(&z, &Operator::Add).unwrap(), Address::Full(0x1010));
    assert_eq!(z.calculate_with(&f, &Operator::Sub).unwrap(), Address::Full(0xF010));
    assert_eq!(f.calculate_with(&f, &Operator::Mul).unwrap(), Address::Full(0x0000));
}

#[test]
fn other_operators_fail() {
    let z = Address::ZeroPage(1);
    for op in [Operator::Comma, Operator::Greater, Operator::Less, Operator::Equal, Operator::NotEqual] {
        assert!(matches!(z.calculate_with(&z, &op), Err(AssemblyError::Syntax(_))));
    }
    assert!(z.calculate_with(&Address::ZeroPage(0), &Operator::Div).is_err());
}

#[test]
fn expressions_resolve_against_labels() {
    let mut labels = LabelTable::new();
    labels.insert(
        "base".to_string(),
        LabelEntry { name: "base".to_string(), line: 1, address: Address::Full(0x2000) },
    );
    let e = Expr::BinOp(
        Box::new(Expr::Identifier("base".to_string())),
        Operator::Add,
        Box::new(Expr::DecimalNum(3)),
    );
    assert_eq!(e.calculate_address(&labels).unwrap(), Address::Full(0x2003));
    assert_eq!(e.evaluate(&labels, &0).unwrap(), 0x2003);
    let cmp = Expr::BinOp(Box::new(Expr::DecimalNum(3)), Operator::Greater, Box::new(Expr::DecimalNum(3)));
    assert_eq!(cmp.evaluate(&labels, &0).unwrap(), 1);
    let missing = Expr::Identifier("nowhere".to_string());
    assert!(matches!(missing.calculate_address(&labels), Err(AssemblyError::Program(_))));
    let list = Expr::BinOp(
        Box::new(Expr::DecimalNum(1)),
        Operator::Comma,
        Box::new(Expr::BinOp(Box::new(Expr::DecimalNum(2)), Operator::Comma, Box::new(Expr::DecimalNum(3)))),
    );
    assert_eq!(list.traverse_comma(), vec![Expr::DecimalNum(1), Expr::DecimalNum(2), Expr::DecimalNum(3)]);
    assert_eq!(Operator::NotEqual.to_string(), "\\");
}
