use asm6502::error::AssemblyError;
use asm6502::expression::{Expr, Operator};
use asm6502::labels::{Address, LabelEntry, LabelTable};
use asm6502::opcode::{AddressingMode, AssemblyInstruction, Mnemonic, OpcodeTable, OperandValue};
use asm6502::line_parser::parse_token;
use asm6502::statement::Statement;

fn ident(s: &str) -> Expr {
    Expr::Identifier(s.to_string())
}

fn sysop(s: &str) -> Expr {
    Expr::SystemOperator(s.to_string())
}

fn binop(l: Expr, op: Operator, r: Expr) -> Expr {
    Expr::BinOp(Box::new(l), op, Box::new(r))
}

fn paren(e: Expr) -> Expr {
    Expr::Parenthesized(Box::new(e))
}

fn stmt(command: Expr, expression: Expr) -> Statement {
    Statement {
        command,
        expression,
    }
}

fn instruction(m: Mnemonic, mode: AddressingMode, v: OperandValue) -> AssemblyInstruction {
    AssemblyInstruction {
        mnemonic: m,
        addressing_mode: mode,
        value: v,
    }
}

fn table_with(name: &str, address: Address) -> LabelTable {
    let mut labels = LabelTable::new();
    labels.insert(
        name.to_string(),
        LabelEntry {
            name: name.to_string(),
            line: 0,
            address,
        },
    );
    labels
}

#[test]
fn statement_test_address_absolute_x_0x0000() {
    let labels = LabelTable::new();
    let expr = Expr::Parenthesized(Box::new(Expr::BinOp(
        Box::new(Expr::WordNum(0x0000)),
        Operator::Add,
        Box::new(Expr::Identifier("X".to_string())),
    )));
    let statement = Statement {
        command: expr,
        expression: Expr::Identifier("A".to_string()),
    };
    let instruction = statement.decode(&labels).unwrap();
    assert_eq!(
        instruction,
        AssemblyInstruction {
            mnemonic: Mnemonic::STA,
            addressing_mode: AddressingMode::AbsoluteX,
            value: OperandValue::Word(0x0000),
        }
    );
}

#[test]
fn test_cmp_immediate() {
    let statement = parse_token("T=A-2").unwrap();
    let labels = LabelTable::new();
    let instruction = statement.decode(&labels).unwrap();
    assert_eq!(
        instruction,
        AssemblyInstruction {
            mnemonic: Mnemonic::CMP,
            addressing_mode: AddressingMode::Immediate,
            value: OperandValue::Byte(0x02),
        }
    );
}

#[test]
fn test_sta_absolute_x() {
    let statement = parse_token("($0000+X)=A").unwrap();
    let labels = LabelTable::new();
    let instruction = statement.decode(&labels).unwrap();
    assert_eq!(
        instruction,
        AssemblyInstruction {
            mnemonic: Mnemonic::STA,
            addressing_mode: AddressingMode::AbsoluteX,
            value: OperandValue::Word(0x0000),
        }
    );
}

#[test]
fn test_lda_absolute_x_label() {
    let statement = parse_token("A=(palette+X)").unwrap();
    let labels = table_with("palette", Address::Full(0x0400));
    let instruction = statement.decode(&labels).unwrap();
    assert_eq!(
        instruction,
        AssemblyInstruction {
            mnemonic: Mnemonic::LDA,
            addressing_mode: AddressingMode::AbsoluteX,
            value: OperandValue::Word(0x0400),
        }
    );
}

#[test]
fn immediate_literal_is_never_zero_page() {
    let labels = LabelTable::new();
    let statement = stmt(ident("X"), Expr::ByteNum(0x12));
    assert_eq!(
        statement.decode(&labels).unwrap(),
        instruction(Mnemonic::LDX, AddressingMode::Immediate, OperandValue::Byte(0x12))
    );
}

#[test]
fn load_mode_follows_the_resolved_address() {
    let statement = stmt(ident("X"), paren(ident("label")));
    let zp = table_with("label", Address::ZeroPage(0x80));
    assert_eq!(
        statement.decode(&zp).unwrap(),
        instruction(Mnemonic::LDX, AddressingMode::ZeroPage, OperandValue::Byte(0x80))
    );
    let full = table_with("label", Address::Full(0x1234));
    assert_eq!(
        statement.decode(&full).unwrap(),
        instruction(Mnemonic::LDX, AddressingMode::Absolute, OperandValue::Word(0x1234))
    );
    let table = OpcodeTable::new();
    assert_eq!(statement.compile(&table, &zp, "", 0x8000).unwrap(), vec![0xA6, 0x80]);
    assert_eq!(statement.compile(&table, &full, "", 0x8000).unwrap(), vec![0xAE, 0x34, 0x12]);
}

#[test]
fn decoder_alternatives() {
    let labels = table_with("ptr", Address::ZeroPage(0x20));
    let cases = vec![
        (stmt(ident("X"), ident("A")), instruction(Mnemonic::TAX, AddressingMode::Implied, OperandValue::NoOperand)),
        (stmt(ident("Y"), sysop("+")), instruction(Mnemonic::INY, AddressingMode::Implied, OperandValue::NoOperand)),
        (stmt(ident("X"), binop(ident("X"), Operator::Sub, Expr::DecimalNum(1))), instruction(Mnemonic::DEX, AddressingMode::Implied, OperandValue::NoOperand)),
        (stmt(ident("A"), ident("Y")), instruction(Mnemonic::TYA, AddressingMode::Implied, OperandValue::NoOperand)),
        (stmt(ident("A"), sysop("]")), instruction(Mnemonic::PLA, AddressingMode::Implied, OperandValue::NoOperand)),
        (stmt(ident("A"), sysop("<")), instruction(Mnemonic::ASL, AddressingMode::Accumulator, OperandValue::NoOperand)),
        (stmt(ident("A"), binop(Expr::Bracketed(Box::new(ident("ptr"))), Operator::Add, ident("Y"))), instruction(Mnemonic::LDA, AddressingMode::IndirectY, OperandValue::Byte(0x20))),
        (stmt(ident("A"), binop(ident("AC"), Operator::Sub, Expr::ByteNum(3))), instruction(Mnemonic::SBC, AddressingMode::Immediate, OperandValue::Byte(3))),
        (stmt(ident("A"), binop(ident("A"), Operator::Xor, paren(Expr::WordNum(0x1234)))), instruction(Mnemonic::EOR, AddressingMode::Absolute, OperandValue::Word(0x1234))),
        (stmt(ident("A"), binop(ident("AC"), Operator::Add, paren(binop(Expr::WordNum(0x4400), Operator::Add, ident("Y"))))), instruction(Mnemonic::ADC, AddressingMode::AbsoluteY, OperandValue::Word(0x4400))),
        (stmt(ident("T"), binop(ident("Y"), Operator::Sub, paren(ident("ptr")))), instruction(Mnemonic::CPY, AddressingMode::ZeroPage, OperandValue::Byte(0x20))),
        (stmt(ident("T"), binop(ident("A"), Operator::And, paren(ident("ptr")))), instruction(Mnemonic::BIT, AddressingMode::ZeroPage, OperandValue::Byte(0x20))),
        (stmt(ident("C"), Expr::DecimalNum(1)), instruction(Mnemonic::SEC, AddressingMode::Implied, OperandValue::NoOperand)),
        (stmt(ident("D"), Expr::DecimalNum(0)), instruction(Mnemonic::CLD, AddressingMode::Implied, OperandValue::NoOperand)),
        (stmt(ident("S"), ident("X")), instruction(Mnemonic::TXS, AddressingMode::Implied, OperandValue::NoOperand)),
        (stmt(ident("_"), Expr::Empty), instruction(Mnemonic::NOP, AddressingMode::Implied, OperandValue::NoOperand)),
        (stmt(sysop("!"), ident("sub")), instruction(Mnemonic::JSR, AddressingMode::Absolute, OperandValue::UnresolvedLabel("sub".to_string()))),
        (stmt(sysop("#"), Expr::WordNum(0xFFD2)), instruction(Mnemonic::JMP, AddressingMode::Absolute, OperandValue::Word(0xFFD2))),
        (stmt(sysop("#"), sysop("!")), instruction(Mnemonic::RTS, AddressingMode::Implied, OperandValue::NoOperand)),
        (stmt(sysop("#"), sysop("~")), instruction(Mnemonic::RTI, AddressingMode::Implied, OperandValue::NoOperand)),
        (stmt(sysop(";"), binop(sysop("\\"), Operator::Comma, ident(".skip"))), instruction(Mnemonic::BNE, AddressingMode::Relative, OperandValue::UnresolvedLabel(".skip".to_string()))),
        (stmt(sysop(";"), binop(ident("CS"), Operator::Comma, Expr::WordNum(0x8010))), instruction(Mnemonic::BCS, AddressingMode::Relative, OperandValue::UnresolvedRelative(0x8010))),
        (stmt(sysop("["), ident("A")), instruction(Mnemonic::PHA, AddressingMode::Implied, OperandValue::NoOperand)),
        (stmt(paren(ident("ptr")), ident("X")), instruction(Mnemonic::STX, AddressingMode::ZeroPage, OperandValue::Byte(0x20))),
        (stmt(paren(binop(ident("ptr"), Operator::Add, ident("X"))), ident("Y")), instruction(Mnemonic::STY, AddressingMode::ZeroPageX, OperandValue::Byte(0x20))),
        (stmt(paren(Expr::WordNum(0xD020)), sysop("+")), instruction(Mnemonic::INC, AddressingMode::Absolute, OperandValue::Word(0xD020))),
        (stmt(paren(ident("ptr")), sysop(")")), instruction(Mnemonic::ROR, AddressingMode::ZeroPage, OperandValue::Byte(0x20))),
        (stmt(Expr::Bracketed(Box::new(binop(ident("ptr"), Operator::Add, ident("X")))), ident("A")), instruction(Mnemonic::STA, AddressingMode::IndirectX, OperandValue::Byte(0x20))),
    ];
    for (statement, expected) in cases {
        assert_eq!(statement.decode(&labels).unwrap(), expected);
    }
}

#[test]
fn undecodable_statement_is_a_decode_error() {
    let labels = LabelTable::new();
    let statement = stmt(ident("X"), Expr::StringLiteral("no".to_string()));
    let err = statement.decode(&labels).unwrap_err();
    assert!(matches!(err, AssemblyError::Decode(_)));
    assert_eq!(err.message(), "bad statement: X=\"no\"");
    let flag = stmt(ident("V"), Expr::DecimalNum(1));
    assert!(matches!(flag.decode(&labels), Err(AssemblyError::Decode(_))));
}

#[test]
fn illegal_mode_is_opcode_not_found() {
    let table = OpcodeTable::new();
    let err = table.find(&Mnemonic::STX, &AddressingMode::AbsoluteX).unwrap_err();
    assert!(matches!(err, AssemblyError::Syntax(_)));
    assert_eq!(err.message(), "opcode not found: STX with AbsoluteX");
    assert_eq!(
        AssemblyError::opcode_not_found(&Mnemonic::STA, &AddressingMode::Immediate),
        AssemblyError::Syntax("opcode not found: STA with Immediate".to_string())
    );
    assert_eq!(table.find(&Mnemonic::LDA, &AddressingMode::Immediate).unwrap().opcode, 0xA9);
    assert_eq!(asm6502::opcode::initialize_opcode_table().len(), 151);
}

#[test]
fn relative_branches_count_from_the_next_instruction() {
    let table = OpcodeTable::new();
    let labels = table_with("MAIN.loop", Address::Full(0x8000));
    let branch = stmt(sysop(";"), binop(sysop("\\"), Operator::Comma, ident(".loop")));
    assert_eq!(branch.compile(&table, &labels, "MAIN", 0x8004).unwrap(), vec![0xD0, 0xFA]);
    let literal = stmt(sysop(";"), binop(sysop("="), Operator::Comma, Expr::WordNum(0x8010)));
    assert_eq!(literal.compile(&table, &labels, "MAIN", 0x8000).unwrap(), vec![0xF0, 0x0E]);
    assert_eq!(Statement::absolute_to_relative(0x8000, 0x8004), vec![0xFA]);
    // reading the byte back as a signed offset from the next instruction gives the target
    for target in [0x7F86u16, 0x8000, 0x8085] {
        let d = Statement::absolute_to_relative(target, 0x8004)[0] as i8 as i32;
        assert_eq!(0x8004 + 2 + d, target as i32);
    }
}

#[test]
fn local_names_are_qualified() {
    assert_eq!(Statement::full_qualify_name(".loop", "MAIN"), "MAIN.loop");
    assert_eq!(Statement::full_qualify_name("OTHER", "MAIN"), "OTHER");
}

#[test]
fn command_kinds() {
    let s = Statement::new("T", Expr::Empty);
    assert_eq!(s.command, ident("T"));
    let s = Statement::new(";", Expr::Empty);
    assert_eq!(s.command, sysop(";"));
    assert!(Statement::new("?", Expr::Empty).is_pseudo());
    assert!(!Statement::new("A", Expr::Empty).is_pseudo());
    assert!(!Statement::new("&", Expr::Empty).is_pseudo());
}

#[test]
fn statements_print_as_written() {
    for text in ["(label+X)", "$12", "$1234", "[ptr]+Y", ">label", "1,2,3", "\"hi\""] {
        assert_eq!(Expr::parse(text).unwrap().to_text(), text);
    }
    let statement = stmt(sysop(";"), binop(sysop("="), Operator::Comma, ident(".skip")));
    assert_eq!(statement.to_text(), ";==,.skip");
    assert_eq!(stmt(sysop("@"), Expr::Empty).to_text(), "@");
}

#[test]
fn only_the_listed_branch_conditions_decode() {
    let labels = LabelTable::new();
    for cond in ["!", "Z", "GE", "LT"] {
        let statement = stmt(sysop(";"), binop(ident(cond), Operator::Comma, ident("target")));
        assert!(matches!(statement.decode(&labels), Err(AssemblyError::Decode(_))), "{}", cond);
    }
}
