use asm6502::decoder::{absolute_x, absolute_y, decode_a, hi_label, indirect_y, lo_label};
use asm6502::expression::{Expr, Operator};
use asm6502::labels::{Address, LabelEntry, LabelTable};
use asm6502::operand_parser::parse_lobyte;
use asm6502::opcode::{AddressingMode, AssemblyInstruction, Mnemonic, OperandValue};

fn table_with(name: &str, address: Address) -> LabelTable {
    let mut labels = LabelTable::new();
    labels.insert(
        name.to_string(),
        LabelEntry {
            name: name.to_string(),
            address,
            line: 0,
        },
    );
    labels
}

#[test]
fn test_absolute_y() {
    let labels = table_with("label", Address::Full(0x1234));
    let expr = Expr::Parenthesized(Box::new(Expr::BinOp(
        Box::new(Expr::Identifier("label".to_string())),
        Operator::Add,
        Box::new(Expr::Identifier("Y".to_string())),
    )));
    assert_eq!(absolute_y(&expr, &labels), Ok(0x1234));
}

#[test]
fn test_absolute_x() {
    let labels = table_with("label", Address::Full(0x1234));
    // Parenthesized(BinOp(Identifier("label"), Add, Identifier("X")))
    let expr = Expr::parse("(label+X)").unwrap();
    assert_eq!(absolute_x(&expr, &labels), Ok(0x1234));
}

#[test]
fn decoder_test_address_absolute_x_0x0000() {
    let labels = LabelTable::new();
    let expr = Expr::Parenthesized(Box::new(Expr::BinOp(
        Box::new(Expr::WordNum(0x0000)),
        Operator::Add,
        Box::new(Expr::Identifier("X".to_string())),
    )));
    assert_eq!(absolute_x(&expr, &labels), Ok(0x0000));
}

#[test]
fn test_indirect_y() {
    let labels = table_with("label", Address::ZeroPage(0x12));
    let expr = Expr::BinOp(
        Box::new(Expr::Bracketed(Box::new(Expr::Identifier(
            "label".to_string(),
        )))),
        Operator::Add,
        Box::new(Expr::Identifier("Y".to_string())),
    );
    assert_eq!(indirect_y(&expr, &labels), Ok(0x12));
}

#[test]
fn test_hi_label() {
    let labels = table_with("label", Address::Full(0x1234));
    let expr = Expr::HiByte(Box::new(Expr::Identifier("label".to_string())));
    assert_eq!(hi_label(&expr, &labels), Ok(0x12));
}

#[test]
fn test_lo_label() {
    let labels = table_with("label", Address::Full(0x1234));
    let expr = Expr::LoByte(Box::new(Expr::Identifier("label".to_string())));
    assert_eq!(lo_label(&expr, &labels), Ok(0x34));
}

#[test]
fn test_lda_lo_label() {
    let labels = table_with("label", Address::Full(0x1234));
    let (rest, expr) = parse_lobyte("<label").unwrap();
    assert_eq!(
        decode_a(&expr, &labels).unwrap(),
        AssemblyInstruction::new(Mnemonic::LDA, AddressingMode::Immediate, OperandValue::Byte(0x34))
    );
    assert_eq!(rest, "");
}
